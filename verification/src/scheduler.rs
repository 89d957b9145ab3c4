//! The batch scheduler: many lifecycles side by side, each advanced by its
//! own events in whatever order they arrive.
//!
//! The caller performs every pending action at once, as many at a time as
//! the batch has domains, and hands each outcome back under the index of its
//! domain. No lifecycle ever reads or writes the state of another.

use crate::domain::Domain;
use crate::error::{ErrorView, Result};
use crate::lifecycle::laws::run;
use crate::lifecycle::machine::{Action, Event, Lifecycle};
use crate::lifecycle::model::{ActionView, EventView, LifecycleView, POLL_INTERVAL_SECS};
use vstd::prelude::*;

verus! {

/// The views of a sequence of lifecycles.
pub open spec fn lifecycle_views(lifecycles: Seq<Lifecycle>) -> Seq<LifecycleView> {
    Seq::new(lifecycles.len(), |i: int| lifecycles[i]@)
}

/// The batch after `event` was handed to the lifecycle at `index`: that
/// lifecycle takes its step, every other stays as it is. An index outside
/// the batch changes nothing.
pub open spec fn batch_step(
    states: Seq<LifecycleView>,
    index: int,
    event: EventView,
) -> Seq<LifecycleView> {
    if 0 <= index < states.len() {
        states.update(index, states[index].step(event).0)
    } else {
        states
    }
}

/// The action that the lifecycle at `index` asks for after `event`.
pub open spec fn batch_action(
    states: Seq<LifecycleView>,
    index: int,
    event: EventView,
) -> ActionView {
    if 0 <= index < states.len() {
        states[index].step(event).1
    } else {
        ActionView::Finish
    }
}

/// The batch after the events of `schedule`, each handed to the lifecycle
/// whose index it comes with, in the order of their arrival.
pub open spec fn batch_run(
    states: Seq<LifecycleView>,
    schedule: Seq<(int, EventView)>,
) -> Seq<LifecycleView>
    decreases schedule.len(),
{
    if schedule.len() == 0 {
        states
    } else {
        batch_step(batch_run(states, schedule.drop_last()), schedule.last().0, schedule.last().1)
    }
}

/// The events of `schedule` that belong to the lifecycle at `index`, in the
/// order of their arrival.
pub open spec fn events_of(schedule: Seq<(int, EventView)>, index: int) -> Seq<EventView>
    decreases schedule.len(),
{
    if schedule.len() == 0 {
        Seq::empty()
    } else if schedule.last().0 == index {
        events_of(schedule.drop_last(), index).push(schedule.last().1)
    } else {
        events_of(schedule.drop_last(), index)
    }
}

/// Partial-failure isolation: in a batch, every lifecycle ends where its own
/// events alone lead it. What the providers answer for one domain, a failure
/// included, and when they do so, has no effect on any other domain.
pub proof fn law_lifecycles_are_isolated(
    states: Seq<LifecycleView>,
    schedule: Seq<(int, EventView)>,
    index: int,
)
    requires
        0 <= index < states.len(),
    ensures
        batch_run(states, schedule).len() == states.len(),
        batch_run(states, schedule)[index] == run(states[index], events_of(schedule, index)),
    decreases schedule.len(),
{
    if schedule.len() > 0 {
        law_lifecycles_are_isolated(states, schedule.drop_last(), index);
        if schedule.last().0 == index {
            let own = events_of(schedule.drop_last(), index);
            assert(own.push(schedule.last().1).drop_last() =~= own);
        }
    }
}

/// A domain whose own events lead its lifecycle to an end reaches that end
/// in the batch too, whatever happens to the other domains.
pub proof fn law_siblings_still_finish(
    states: Seq<LifecycleView>,
    schedule: Seq<(int, EventView)>,
    index: int,
)
    requires
        0 <= index < states.len(),
        run(states[index], events_of(schedule, index)).stage.is_terminal(),
    ensures
        batch_run(states, schedule)[index].stage.is_terminal(),
        batch_run(states, schedule)[index].result() == run(
            states[index],
            events_of(schedule, index),
        ).result(),
{
    law_lifecycles_are_isolated(states, schedule, index);
}

/// How one domain of a batch ended.
#[derive(Debug, PartialEq, Eq)]
pub struct Outcome {
    pub name: String,
    /// `None` while the lifecycle is under way, else how it ended.
    pub result: Option<Result<()>>,
}

/// The mathematical value of an [`Outcome`].
pub struct OutcomeView {
    pub name: Seq<char>,
    pub result: Option<std::result::Result<(), ErrorView>>,
}

impl View for Outcome {
    type V = OutcomeView;

    open spec fn view(&self) -> OutcomeView {
        OutcomeView {
            name: self.name@,
            result: match self.result {
                Some(Ok(_)) => Some(Ok(())),
                Some(Err(e)) => Some(Err(e@)),
                None => None,
            },
        }
    }
}

impl LifecycleView {
    /// The line of the report for this lifecycle.
    pub open spec fn outcome(self) -> OutcomeView {
        OutcomeView { name: self.domain.name, result: self.result() }
    }
}

/// A batch of lifecycles, one for each domain, in the order of the domains.
#[derive(Debug)]
pub struct Batch {
    pub lifecycles: Vec<Lifecycle>,
}

impl View for Batch {
    type V = Seq<LifecycleView>;

    open spec fn view(&self) -> Seq<LifecycleView> {
        lifecycle_views(self.lifecycles@)
    }
}

impl Batch {
    /// Starts a lifecycle for each of `domains`: the batch, and the first
    /// action of each lifecycle, in the order of the domains.
    pub fn start(domains: &Vec<Domain>) -> (started: (Batch, Vec<Action>))
        ensures
            started.0@.len() == domains.len(),
            started.1.len() == domains.len(),
            forall|i: int|
                0 <= i < domains.len() ==> (#[trigger] started.0@[i], started.1[i]@)
                    == LifecycleView::start(domains[i]@, POLL_INTERVAL_SECS),
    {
        let mut lifecycles: Vec<Lifecycle> = Vec::new();
        let mut actions: Vec<Action> = Vec::new();
        let mut i: usize = 0;
        while i < domains.len()
            invariant
                i <= domains.len(),
                lifecycles.len() == i,
                actions.len() == i,
                forall|j: int|
                    0 <= j < i ==> (#[trigger] lifecycles[j]@, actions[j]@)
                        == LifecycleView::start(domains[j]@, POLL_INTERVAL_SECS),
            decreases domains.len() - i,
        {
            let (lifecycle, action) = Lifecycle::start(domains[i].clone());
            lifecycles.push(lifecycle);
            actions.push(action);
            i += 1;
        }
        (Batch { lifecycles }, actions)
    }

    /// How many domains the batch has.
    pub fn len(&self) -> (count: usize)
        ensures
            count == self@.len(),
    {
        self.lifecycles.len()
    }

    /// How many actions the caller may have under way at once: one for each
    /// domain of the batch, no fewer.
    pub fn concurrency(&self) -> (limit: usize)
        ensures
            limit == self@.len(),
    {
        self.lifecycles.len()
    }

    /// Hands `event` to the lifecycle at `index` and says what that
    /// lifecycle asks for next. No other lifecycle changes; an index outside
    /// the batch changes nothing and finishes.
    pub fn step(&mut self, index: usize, event: Event) -> (action: Action)
        ensures
            final(self)@ == batch_step(old(self)@, index as int, event@),
            action@ == batch_action(old(self)@, index as int, event@),
    {
        if index < self.lifecycles.len() {
            let action = self.lifecycles[index].step(event);
            assert(self@ =~= batch_step(old(self)@, index as int, event@));
            action
        } else {
            Action::Finish
        }
    }

    /// Whether every lifecycle of the batch has ended.
    pub fn is_finished(&self) -> (finished: bool)
        ensures
            finished == forall|i: int|
                0 <= i < self@.len() ==> (#[trigger] self@[i]).stage.is_terminal(),
    {
        let mut i: usize = 0;
        while i < self.lifecycles.len()
            invariant
                i <= self.lifecycles.len(),
                forall|j: int| 0 <= j < i ==> (#[trigger] self@[j]).stage.is_terminal(),
            decreases self.lifecycles.len() - i,
        {
            if !self.lifecycles[i].is_terminal() {
                assert(!self@[i as int].stage.is_terminal());
                return false;
            }
            i += 1;
        }
        true
    }

    /// The report of the batch: one line for each domain, in the order of
    /// the domains, with the error of each that failed. No domain is left
    /// out because it or another one failed.
    pub fn report(&self) -> (lines: Vec<Outcome>)
        ensures
            lines.len() == self@.len(),
            forall|i: int| 0 <= i < lines.len() ==> (#[trigger] lines[i])@ == self@[i].outcome(),
    {
        let mut lines: Vec<Outcome> = Vec::new();
        let mut i: usize = 0;
        while i < self.lifecycles.len()
            invariant
                i <= self.lifecycles.len(),
                lines.len() == i,
                forall|j: int| 0 <= j < i ==> (#[trigger] lines[j])@ == self@[j].outcome(),
            decreases self.lifecycles.len() - i,
        {
            let lifecycle = &self.lifecycles[i];
            lines.push(Outcome { name: lifecycle.domain.name(), result: lifecycle.result() });
            i += 1;
        }
        lines
    }
}

} // verus!
