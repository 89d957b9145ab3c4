//! What holds of every run of a lifecycle, whatever the providers answer.

use crate::domain::DomainView;
use crate::lifecycle::model::{
    validation_sub_domain, ActionView, Call, EventView, LifecycleView, Stage,
};
use crate::ssl::StatusView;
use vstd::prelude::*;

verus! {

/// The state that `events`, taken in one after another, lead to from `state`.
pub open spec fn run(state: LifecycleView, events: Seq<EventView>) -> LifecycleView
    decreases events.len(),
{
    if events.len() == 0 {
        state
    } else {
        run(state, events.drop_last()).step(events.last()).0
    }
}

/// The actions that a lifecycle of `domain` asks for when its actions are
/// answered by `events`: the first action, then one for each event.
pub open spec fn trace(domain: DomainView, poll_interval: u64, events: Seq<EventView>) -> Seq<
    ActionView,
>
    decreases events.len(),
{
    let started = LifecycleView::start(domain, poll_interval);
    if events.len() == 0 {
        seq![started.1]
    } else {
        trace(domain, poll_interval, events.drop_last()).push(
            run(started.0, events.drop_last()).step(events.last()).1,
        )
    }
}

/// The state of a lifecycle of `domain` after `events`.
pub open spec fn outcome(
    domain: DomainView,
    poll_interval: u64,
    events: Seq<EventView>,
) -> LifecycleView {
    run(LifecycleView::start(domain, poll_interval).0, events)
}

/// How often `call` is asked for in `actions`.
pub open spec fn count(actions: Seq<ActionView>, call: Call) -> nat
    decreases actions.len(),
{
    if actions.len() == 0 {
        0
    } else {
        count(actions.drop_last(), call) + if actions.last().call() == call {
            1nat
        } else {
            0nat
        }
    }
}

/// Counting after one more action.
pub proof fn lemma_count_push(actions: Seq<ActionView>, action: ActionView, call: Call)
    ensures
        count(actions.push(action), call) == count(actions, call) + if action.call() == call {
            1nat
        } else {
            0nat
        },
{
    assert(actions.push(action).drop_last() =~= actions);
}

/// A call that is counted stands somewhere in the actions.
pub proof fn lemma_count_positive(actions: Seq<ActionView>, call: Call)
    ensures
        count(actions, call) > 0 <==> exists|i: int|
            0 <= i < actions.len() && #[trigger] actions[i].call() == call,
    decreases actions.len(),
{
    if actions.len() > 0 {
        let before = actions.drop_last();
        lemma_count_positive(before, call);
        if count(actions, call) > 0 {
            if actions.last().call() == call {
                assert(actions[actions.len() - 1].call() == call);
            } else {
                let i = choose|i: int| 0 <= i < before.len() && #[trigger] before[i].call() == call;
                assert(actions[i].call() == call);
            }
        }
        if exists|i: int| 0 <= i < actions.len() && #[trigger] actions[i].call() == call {
            let i = choose|i: int| 0 <= i < actions.len() && #[trigger] actions[i].call() == call;
            if i < actions.len() - 1 {
                assert(before[i].call() == call);
            }
        }
    }
}

/// Counting in a single action.
pub proof fn lemma_count_single(action: ActionView, call: Call)
    ensures
        count(seq![action], call) == if action.call() == call {
            1nat
        } else {
            0nat
        },
{
    assert(seq![action] =~= Seq::<ActionView>::empty().push(action));
    lemma_count_push(Seq::empty(), action, call);
}

impl Stage {
    /// The certificate is not known to be ready yet.
    pub open spec fn is_before_ready(self) -> bool {
        match self {
            Stage::Applying | Stage::FirstPoll | Stage::Publishing | Stage::Republishing
            | Stage::Waiting | Stage::Polling => true,
            _ => false,
        }
    }

    /// The certificate has been handed to the CDN for binding.
    pub open spec fn is_after_bind(self) -> bool {
        match self {
            Stage::Binding | Stage::Cleaning | Stage::Bound => true,
            _ => false,
        }
    }
}

impl LifecycleView {
    /// The lifecycle might still ask for the validation record to be
    /// created.
    pub open spec fn may_add_record(self) -> bool {
        &&& self.domain.lacks_record()
        &&& match self.stage {
            Stage::Applying | Stage::FirstPoll | Stage::Polling | Stage::Waiting => true,
            _ => false,
        }
    }

    /// The lifecycle works for `domain`: the name, the zone, the three
    /// accounts and the polling interval are the ones it was started with.
    pub open spec fn serves(self, domain: DomainView, poll_interval: u64) -> bool {
        &&& self.domain.name == domain.name
        &&& self.domain.original_name == domain.original_name
        &&& self.domain.ssl_provider == domain.ssl_provider
        &&& self.domain.cdn_provider == domain.cdn_provider
        &&& self.domain.dns_provider == domain.dns_provider
        &&& self.poll_interval == poll_interval
    }
}

/// What the state of a lifecycle and the actions it has asked for have to do
/// with each other, in every run that started from `domain`.
pub open spec fn consistent(
    state: LifecycleView,
    asked: Seq<ActionView>,
    domain: DomainView,
    poll_interval: u64,
) -> bool {
    let direct = domain.can_direct_update_ssl();
    let applies = count(asked, Call::Apply);
    let adds = count(asked, Call::AddRecord);
    let downloads = count(asked, Call::Download);
    let uploads = count(asked, Call::Upload);
    let binds = count(asked, Call::Bind);
    &&& state.serves(domain, poll_interval)
    &&& applies == if domain.ssl_info is Some {
        0nat
    } else {
        1nat
    }
    &&& domain.ssl_info is Some ==> state.certificate_id() == domain.ssl_info->0.certificate_id
    &&& state.stage == Stage::Applying ==> domain.ssl_info is None && state.domain.ssl_info is None
    &&& state.stage != Stage::Applying && state.stage != Stage::Failed
        ==> state.domain.ssl_info is Some
    &&& domain.ssl_info is Some ==> state.domain.ssl_info is Some
    &&& adds <= 1
    &&& adds == 1 ==> !state.may_add_record()
    &&& state.stage == Stage::Publishing ==> adds == 1
    &&& state.stage == Stage::Republishing ==> !state.domain.lacks_record()
    &&& adds == 0 && !state.stage.is_terminal() ==> state.domain.lacks_record()
        == domain.lacks_record()
    &&& state.stage.is_before_ready() ==> downloads == 0 && uploads == 0 && binds == 0
    &&& state.stage == Stage::Downloading ==> !direct && downloads == 1 && uploads == 0 && binds
        == 0
    &&& state.stage == Stage::Uploading ==> !direct && downloads == 1 && uploads == 1 && binds == 0
    &&& state.stage.is_after_bind() ==> binds == 1
    &&& direct ==> downloads == 0 && uploads == 0 && binds <= 1
    &&& !direct ==> binds <= uploads <= downloads <= 1
    &&& binds > 0 ==> state.binding_id is Some
    &&& direct && binds > 0 ==> state.binding_id == Some(state.certificate_id())
    &&& forall|i: int|
        0 <= i < asked.len() && (#[trigger] asked[i]).call() == Call::Bind ==> asked[i]
            == (ActionView::Bind { domain: domain.name, certificate_id: state.binding_id->0 })
}

/// A lifecycle starts consistent.
pub proof fn lemma_start_is_consistent(domain: DomainView, poll_interval: u64)
    ensures
        consistent(
            LifecycleView::start(domain, poll_interval).0,
            seq![LifecycleView::start(domain, poll_interval).1],
            domain,
            poll_interval,
        ),
{
    let started = LifecycleView::start(domain, poll_interval);
    lemma_count_single(started.1, Call::Apply);
    lemma_count_single(started.1, Call::AddRecord);
    lemma_count_single(started.1, Call::Download);
    lemma_count_single(started.1, Call::Upload);
    lemma_count_single(started.1, Call::Bind);
}

/// A step keeps a lifecycle consistent.
pub proof fn lemma_step_is_consistent(
    state: LifecycleView,
    asked: Seq<ActionView>,
    domain: DomainView,
    poll_interval: u64,
    event: EventView,
)
    requires
        consistent(state, asked, domain, poll_interval),
    ensures
        consistent(state.step(event).0, asked.push(state.step(event).1), domain, poll_interval),
{
    let next = state.step(event);
    lemma_count_push(asked, next.1, Call::Apply);
    lemma_count_push(asked, next.1, Call::AddRecord);
    lemma_count_push(asked, next.1, Call::Download);
    lemma_count_push(asked, next.1, Call::Upload);
    lemma_count_push(asked, next.1, Call::Bind);
    let longer = asked.push(next.1);
    if count(asked, Call::Bind) > 0 {
        lemma_count_positive(asked, Call::Bind);
    }
    assert forall|i: int| 0 <= i < longer.len() && (#[trigger] longer[i]).call() == Call::Bind implies longer[i]
        == (ActionView::Bind { domain: domain.name, certificate_id: next.0.binding_id->0 }) by {
        if i < asked.len() {
            assert(longer[i] == asked[i]);
            lemma_count_positive(asked, Call::Bind);
        }
    }
}

/// Every run of a lifecycle is consistent.
pub proof fn lemma_runs_are_consistent(
    domain: DomainView,
    poll_interval: u64,
    events: Seq<EventView>,
)
    ensures
        consistent(
            outcome(domain, poll_interval, events),
            trace(domain, poll_interval, events),
            domain,
            poll_interval,
        ),
    decreases events.len(),
{
    if events.len() == 0 {
        lemma_start_is_consistent(domain, poll_interval);
    } else {
        lemma_runs_are_consistent(domain, poll_interval, events.drop_last());
        lemma_step_is_consistent(
            outcome(domain, poll_interval, events.drop_last()),
            trace(domain, poll_interval, events.drop_last()),
            domain,
            poll_interval,
            events.last(),
        );
    }
}

/// The actions of a run up to an event are the actions of the run that ends
/// there.
pub proof fn lemma_trace_prefix(
    domain: DomainView,
    poll_interval: u64,
    events: Seq<EventView>,
    upto: int,
)
    requires
        0 <= upto <= events.len(),
    ensures
        trace(domain, poll_interval, events).len() == events.len() + 1,
        trace(domain, poll_interval, events).take(upto + 1) == trace(
            domain,
            poll_interval,
            events.take(upto),
        ),
    decreases events.len(),
{
    if events.len() == 0 {
        assert(events.take(upto) =~= events);
        assert(trace(domain, poll_interval, events).take(1) =~= trace(
            domain,
            poll_interval,
            events,
        ));
    } else {
        let before = events.drop_last();
        lemma_trace_prefix(domain, poll_interval, before, if upto < events.len() {
            upto
        } else {
            0
        });
        if upto == events.len() {
            assert(events.take(upto) =~= events);
            assert(trace(domain, poll_interval, events).take(upto + 1) =~= trace(
                domain,
                poll_interval,
                events,
            ));
        } else {
            assert(events.take(upto) =~= before.take(upto));
            assert(trace(domain, poll_interval, events).take(upto + 1) =~= trace(
                domain,
                poll_interval,
                before,
            ).take(upto + 1));
        }
    }
}

/// Idempotent resume: a lifecycle of a record that already has a certificate
/// handle never applies for a certificate, whatever happens, and keeps the
/// handle it has.
pub proof fn law_resume_never_applies(
    domain: DomainView,
    poll_interval: u64,
    events: Seq<EventView>,
)
    requires
        domain.ssl_info is Some,
    ensures
        count(trace(domain, poll_interval, events), Call::Apply) == 0,
        outcome(domain, poll_interval, events).certificate_id()
            == domain.ssl_info->0.certificate_id,
{
    lemma_runs_are_consistent(domain, poll_interval, events);
}

/// A lifecycle applies for a certificate at most once: exactly once where
/// the record had no handle.
pub proof fn law_applies_at_most_once(
    domain: DomainView,
    poll_interval: u64,
    events: Seq<EventView>,
)
    ensures
        count(trace(domain, poll_interval, events), Call::Apply) == if domain.ssl_info is None {
            1nat
        } else {
            0nat
        },
{
    lemma_runs_are_consistent(domain, poll_interval, events);
}

/// Once a handle is recorded, no step changes it.
pub proof fn law_certificate_id_is_kept(state: LifecycleView, event: EventView)
    requires
        state.domain.ssl_info is Some,
        state.stage != Stage::Applying,
    ensures
        state.step(event).0.certificate_id() == state.certificate_id(),
        state.step(event).0.domain.ssl_info is Some,
        state.step(event).0.stage != Stage::Applying,
{
}

/// The handle that the authority issues is the one the record keeps.
pub proof fn law_issued_certificate_id_is_recorded(
    domain: DomainView,
    poll_interval: u64,
    certificate_id: Seq<char>,
    events: Seq<EventView>,
)
    requires
        domain.ssl_info is None,
        events.len() > 0,
        events[0] == EventView::Applied(Ok(certificate_id)),
    ensures
        outcome(domain, poll_interval, events).certificate_id() == certificate_id,
        outcome(domain, poll_interval, events).domain.ssl_info is Some,
        outcome(domain, poll_interval, events).stage != Stage::Applying,
    decreases events.len(),
{
    if events.len() == 1 {
        let started = LifecycleView::start(domain, poll_interval).0;
        assert(run(started, events.drop_last()) == started);
        assert(events.last() == events[0]);
    } else {
        let before = events.drop_last();
        assert(before[0] == events[0]);
        law_issued_certificate_id_is_recorded(domain, poll_interval, certificate_id, before);
        law_certificate_id_is_kept(outcome(domain, poll_interval, before), events.last());
    }
}

/// No duplicate DNS records: a lifecycle asks for the validation record to
/// be created at most once.
pub proof fn law_record_is_added_at_most_once(
    domain: DomainView,
    poll_interval: u64,
    events: Seq<EventView>,
)
    ensures
        count(trace(domain, poll_interval, events), Call::AddRecord) <= 1,
{
    lemma_runs_are_consistent(domain, poll_interval, events);
}

/// The identifier that the DNS vendor last returned in `events`, for the
/// creation or for a modification of the validation record.
pub open spec fn returned_id(events: Seq<EventView>) -> Option<u64>
    decreases events.len(),
{
    if events.len() == 0 {
        None
    } else {
        match events.last() {
            EventView::RecordAdded(Ok(record_id)) => Some(record_id),
            EventView::RecordModified(Ok(record_id)) => Some(record_id),
            _ => returned_id(events.drop_last()),
        }
    }
}

/// While a lifecycle is under way, the identifier on record is the one that
/// the DNS vendor last returned; it is the one the domain came with where
/// the vendor has returned none. Once the vendor has returned one, the
/// record counts as created.
pub proof fn law_record_id_is_the_returned_one(
    domain: DomainView,
    poll_interval: u64,
    events: Seq<EventView>,
)
    requires
        !outcome(domain, poll_interval, events).stage.is_terminal(),
    ensures
        outcome(domain, poll_interval, events).domain.record_id() == match returned_id(events) {
            Some(record_id) => Some(record_id),
            None => domain.record_id(),
        },
        returned_id(events) is Some ==> !outcome(domain, poll_interval, events).domain.lacks_record(),
        returned_id(events) is None ==> outcome(domain, poll_interval, events).domain.dns_info
            == domain.dns_info,
    decreases events.len(),
{
    if events.len() > 0 {
        let before = outcome(domain, poll_interval, events.drop_last());
        if before.stage.is_terminal() {
            assert(before.step(events.last()).0 == before);
        } else {
            law_record_id_is_the_returned_one(domain, poll_interval, events.drop_last());
        }
    }
}

/// With a validation record on file, a poll that is not ready and carries a
/// challenge value other than the one last written has the record modified:
/// the new value goes to the identifier on record, and no record is created.
pub proof fn law_changed_challenge_is_modified(state: LifecycleView, snapshot: StatusView)
    requires
        state.stage == Stage::FirstPoll || state.stage == Stage::Polling,
        !state.domain.lacks_record(),
        state.domain.record_id() is Some,
        !snapshot.can_download,
        snapshot.dns_value.len() > 0,
        state.published != Some(snapshot.dns_value),
    ensures
        state.step(EventView::Status(Ok(snapshot))).0.stage == Stage::Republishing,
        state.step(EventView::Status(Ok(snapshot))).1 == (ActionView::ModifyRecord {
            value: snapshot.dns_value,
            record_id: state.domain.record_id()->0,
            zone: state.domain.original_name,
            sub_domain: validation_sub_domain(snapshot.dns_key, state.domain.original_name),
        }),
{
}

/// With a validation record on file, a poll that is not ready and carries no
/// challenge value, which its empty text stands for, changes nothing of the
/// record: the lifecycle waits and asks nothing of the DNS vendor.
pub proof fn law_absent_challenge_waits(state: LifecycleView, snapshot: StatusView)
    requires
        state.stage == Stage::FirstPoll || state.stage == Stage::Polling,
        !state.domain.lacks_record(),
        !snapshot.can_download,
        snapshot.dns_value.len() == 0,
    ensures
        ({
            let polled = state.step(EventView::Status(Ok(snapshot)));
            &&& polled.0.stage == Stage::Waiting
            &&& polled.1 == ActionView::Wait { seconds: state.poll_interval }
            &&& polled.1.call().spec_service() is None
            &&& polled.0.domain.dns_info == state.domain.dns_info
            &&& polled.0.published == state.published
        }),
{
}

/// No duplicate DNS records, in every run: once the DNS vendor has returned
/// an identifier for the validation record of a domain that came without
/// one, a poll that is not ready and carries a challenge value other than
/// the one last written is answered by a modification of the record under
/// the identifier last returned, and the creation stays the only one.
pub proof fn law_changed_challenge_modifies_the_returned_record(
    domain: DomainView,
    poll_interval: u64,
    events: Seq<EventView>,
    record_id: u64,
    snapshot: StatusView,
)
    requires
        domain.lacks_record(),
        outcome(domain, poll_interval, events).stage == Stage::FirstPoll || outcome(
            domain,
            poll_interval,
            events,
        ).stage == Stage::Polling,
        returned_id(events) == Some(record_id),
        !snapshot.can_download,
        snapshot.dns_value.len() > 0,
        outcome(domain, poll_interval, events).published != Some(snapshot.dns_value),
    ensures
        ({
            let polled = events.push(EventView::Status(Ok(snapshot)));
            let asked = trace(domain, poll_interval, polled);
            &&& asked.last() == ActionView::ModifyRecord {
                value: snapshot.dns_value,
                record_id,
                zone: domain.original_name,
                sub_domain: validation_sub_domain(snapshot.dns_key, domain.original_name),
            }
            &&& count(asked, Call::AddRecord) == 1
            &&& count(trace(domain, poll_interval, events), Call::AddRecord) == 1
        }),
{
    let state = outcome(domain, poll_interval, events);
    let event = EventView::Status(Ok(snapshot));
    let polled = events.push(event);
    law_record_id_is_the_returned_one(domain, poll_interval, events);
    lemma_runs_are_consistent(domain, poll_interval, events);
    lemma_runs_are_consistent(domain, poll_interval, polled);
    law_changed_challenge_is_modified(state, snapshot);
    assert(polled.drop_last() =~= events);
    assert(polled.last() == event);
    lemma_count_push(trace(domain, poll_interval, events), state.step(event).1, Call::AddRecord);
}

/// After the validation record was created under `record_id`, a poll that
/// comes back with another challenge value has that record modified: the
/// new value goes to the identifier that the creation returned.
pub proof fn law_changed_challenge_modifies_record(
    state: LifecycleView,
    record_id: u64,
    snapshot: StatusView,
)
    requires
        state.stage == Stage::Publishing,
        !snapshot.can_download,
        snapshot.dns_value.len() > 0,
        state.challenge_value() != Some(snapshot.dns_value),
    ensures
        ({
            let created = state.step(EventView::RecordAdded(Ok(record_id))).0;
            let waited = created.step(EventView::Waited).0;
            let polled = waited.step(EventView::Status(Ok(snapshot)));
            &&& polled.0.stage == Stage::Republishing
            &&& polled.1 == ActionView::ModifyRecord {
                value: snapshot.dns_value,
                record_id,
                zone: state.domain.original_name,
                sub_domain: validation_sub_domain(snapshot.dns_key, state.domain.original_name),
            }
        }),
{
}

/// After the validation record was written with the latest challenge value,
/// a poll that comes back with the same value, not yet ready, only waits.
pub proof fn law_unchanged_challenge_waits(
    state: LifecycleView,
    record_id: u64,
    snapshot: StatusView,
)
    requires
        state.stage == Stage::Publishing || state.stage == Stage::Republishing,
        !snapshot.can_download,
        state.challenge_value() == Some(snapshot.dns_value),
    ensures
        ({
            let answer = if state.stage == Stage::Publishing {
                EventView::RecordAdded(Ok(record_id))
            } else {
                EventView::RecordModified(Ok(record_id))
            };
            let written = state.step(answer).0;
            let waited = written.step(EventView::Waited).0;
            let polled = waited.step(EventView::Status(Ok(snapshot)));
            &&& polled.0.stage == Stage::Waiting
            &&& polled.1 == ActionView::Wait { seconds: state.poll_interval }
        }),
{
}

/// A modification is only ever asked of the record that the lifecycle knows:
/// it carries the identifier on record and the challenge value just polled.
pub proof fn law_modify_targets_known_record(state: LifecycleView, event: EventView)
    requires
        state.step(event).1.call() == Call::ModifyRecord,
    ensures
        state.domain.record_id() is Some,
        event matches EventView::Status(Ok(snapshot)) && state.step(event).1
            == (ActionView::ModifyRecord {
            value: snapshot.dns_value,
            record_id: state.domain.record_id()->0,
            zone: state.domain.original_name,
            sub_domain: validation_sub_domain(snapshot.dns_key, state.domain.original_name),
        }),
{
}

/// Direct-bind correctness: where the authority and the CDN are one vendor
/// account, a lifecycle never downloads or uploads, and every binding it
/// asks for carries the authority's handle as the record keeps it.
pub proof fn law_direct_bind(domain: DomainView, poll_interval: u64, events: Seq<EventView>)
    requires
        domain.can_direct_update_ssl(),
    ensures
        count(trace(domain, poll_interval, events), Call::Download) == 0,
        count(trace(domain, poll_interval, events), Call::Upload) == 0,
        count(trace(domain, poll_interval, events), Call::Bind) <= 1,
        forall|i: int|
            0 <= i < trace(domain, poll_interval, events).len() && (#[trigger] trace(
                domain,
                poll_interval,
                events,
            )[i]).call() == Call::Bind ==> trace(domain, poll_interval, events)[i]
                == (ActionView::Bind {
                domain: domain.name,
                certificate_id: outcome(domain, poll_interval, events).certificate_id(),
            }),
{
    lemma_runs_are_consistent(domain, poll_interval, events);
    let asked = trace(domain, poll_interval, events);
    assert forall|i: int| 0 <= i < asked.len() && (#[trigger] asked[i]).call() == Call::Bind implies asked[i]
        == (ActionView::Bind {
        domain: domain.name,
        certificate_id: outcome(domain, poll_interval, events).certificate_id(),
    }) by {
        lemma_count_positive(asked, Call::Bind);
    }
}

/// Reconciliation correctness, at the end of a run: where the authority and
/// the CDN are different accounts, a lifecycle downloads, uploads and binds
/// at most once each; when it asks for the upload it has asked for the
/// download and for no upload before; when it asks for the binding it has
/// asked for exactly one download and one upload before, and the binding
/// carries the handle that the upload returned.
pub proof fn law_reconciliation_at_end(
    domain: DomainView,
    poll_interval: u64,
    events: Seq<EventView>,
)
    requires
        !domain.can_direct_update_ssl(),
    ensures
        ({
            let asked = trace(domain, poll_interval, events);
            let before = asked.drop_last();
            &&& count(asked, Call::Bind) <= count(asked, Call::Upload) <= count(
                asked,
                Call::Download,
            ) <= 1
            &&& asked.last().call() == Call::Download ==> count(before, Call::Download) == 0
            &&& asked.last().call() == Call::Upload ==> count(before, Call::Download) == 1 && count(
                before,
                Call::Upload,
            ) == 0
            &&& asked.last().call() == Call::Bind ==> count(before, Call::Download) == 1 && count(
                before,
                Call::Upload,
            ) == 1 && count(before, Call::Bind) == 0
            &&& asked.last().call() == Call::Bind ==> events.len() > 0 && (events.last()
                matches EventView::Uploaded(Ok(handle)) && asked.last() == (ActionView::Bind {
                domain: domain.name,
                certificate_id: handle,
            }))
        }),
{
    lemma_runs_are_consistent(domain, poll_interval, events);
    let asked = trace(domain, poll_interval, events);
    if events.len() == 0 {
        assert(asked.drop_last() =~= Seq::<ActionView>::empty());
    } else {
        let earlier = events.drop_last();
        lemma_runs_are_consistent(domain, poll_interval, earlier);
        assert(asked.drop_last() =~= trace(domain, poll_interval, earlier));
    }
}

/// Reconciliation correctness, at every point of a run: where the authority
/// and the CDN are different accounts, each binding that a lifecycle asks
/// for comes after exactly one download and one upload, and each upload
/// after the download and no other upload.
pub proof fn law_reconciliation(domain: DomainView, poll_interval: u64, events: Seq<EventView>)
    requires
        !domain.can_direct_update_ssl(),
    ensures
        ({
            let asked = trace(domain, poll_interval, events);
            forall|at: int|
                0 <= at < asked.len() ==> {
                    let before = asked.take(at);
                    &&& (#[trigger] asked[at]).call() == Call::Upload ==> count(
                        before,
                        Call::Download,
                    ) == 1 && count(before, Call::Upload) == 0
                    &&& asked[at].call() == Call::Bind ==> count(before, Call::Download) == 1
                        && count(before, Call::Upload) == 1 && count(before, Call::Bind) == 0
                }
        }),
{
    let asked = trace(domain, poll_interval, events);
    lemma_trace_prefix(domain, poll_interval, events, 0);
    assert forall|at: int| 0 <= at < asked.len() implies {
        let before = asked.take(at);
        &&& (#[trigger] asked[at]).call() == Call::Upload ==> count(before, Call::Download) == 1
            && count(before, Call::Upload) == 0
        &&& asked[at].call() == Call::Bind ==> count(before, Call::Download) == 1 && count(
            before,
            Call::Upload,
        ) == 1 && count(before, Call::Bind) == 0
    } by {
        lemma_trace_prefix(domain, poll_interval, events, at);
        let shorter = trace(domain, poll_interval, events.take(at));
        assert(shorter == asked.take(at + 1));
        assert(shorter.last() == asked[at]);
        assert(shorter.drop_last() =~= asked.take(at));
        law_reconciliation_at_end(domain, poll_interval, events.take(at));
    }
}

/// Readiness is final: once the authority has said that the certificate can
/// be downloaded, the lifecycle never polls, waits or touches the validation
/// record's value again; it goes on to the binding or fails.
pub proof fn law_ready_is_final(state: LifecycleView, event: EventView)
    requires
        state.stage.is_past_validation(),
    ensures
        ({
            let next = state.step(event);
            &&& next.0.stage.is_past_validation() || next.0.stage == Stage::Failed
            &&& next.1.call() != Call::Apply
            &&& next.1.call() != Call::CheckStatus
            &&& next.1.call() != Call::Wait
            &&& next.1.call() != Call::AddRecord
            &&& next.1.call() != Call::ModifyRecord
        }),
{
}

/// A poll that finds the certificate ready leaves the polling loop at once,
/// whatever the state of the validation record.
pub proof fn law_ready_leaves_polling(state: LifecycleView, snapshot: StatusView)
    requires
        state.stage == Stage::FirstPoll || state.stage == Stage::Polling,
        snapshot.can_download,
    ensures
        state.step(EventView::Status(Ok(snapshot))).0.stage == if state.domain.can_direct_update_ssl() {
            Stage::Binding
        } else {
            Stage::Downloading
        },
{
}

/// Every call goes to the account that the domain names for it: the
/// authority's for applying, polling and downloading, the DNS account for
/// the validation record, and the CDN's own account for the upload as well
/// as for the binding.
pub proof fn law_calls_go_to_their_accounts(domain: DomainView, call: Call)
    ensures
        match call {
            Call::Apply | Call::CheckStatus | Call::Download => call.spec_service() is Some
                && domain.account(call.spec_service()->0) == domain.ssl_provider,
            Call::AddRecord | Call::ModifyRecord | Call::DeleteRecord => call.spec_service()
                is Some && domain.account(call.spec_service()->0) == domain.dns_provider,
            Call::Upload | Call::Bind => call.spec_service() is Some && domain.account(
                call.spec_service()->0,
            ) == domain.cdn_provider,
            Call::Wait | Call::Finish => call.spec_service() is None,
        },
{
}

/// A provider call that fails ends the lifecycle in failure with the error
/// of the call, unless the call was the deletion of the validation record,
/// whose failure the lifecycle survives.
pub proof fn law_failure_carries_the_error(
    state: LifecycleView,
    event: EventView,
    error: crate::error::ErrorView,
)
    requires
        !state.stage.is_terminal(),
        state.step(event).1.failure(error) is Some,
    ensures
        ({
            let pending = state.step(event);
            let after = pending.0.step(pending.1.failure(error)->0).0;
            if pending.1.call() == Call::DeleteRecord {
                after.stage == Stage::Bound
            } else {
                after.stage == Stage::Failed && after.failure == Some(error)
            }
        }),
{
}

/// A lifecycle that has ended stays as it is and asks for nothing more.
pub proof fn law_terminal_states_absorb(state: LifecycleView, events: Seq<EventView>)
    requires
        state.stage.is_terminal(),
    ensures
        run(state, events) == state,
    decreases events.len(),
{
    if events.len() > 0 {
        law_terminal_states_absorb(state, events.drop_last());
    }
}

} // verus!
