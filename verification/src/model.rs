//! The in-memory shapes of an already-parsed pipeline that this rule reads:
//! the trigger, a job's steps, and each step's configuration inputs. The
//! surrounding scanner parses workflow files and hands these plain values in.

use vstd::prelude::*;

verus! {

/// A named workflow event.
#[derive(Clone, Copy, Debug, PartialEq, Eq, Structural)]
pub enum Event {
    Release,
    Push,
    PullRequest,
    PullRequestTarget,
    Schedule,
    WorkflowDispatch,
    WorkflowCall,
    Other,
}

/// The body a trigger maps the push event to: missing, present with the
/// event's defaults, or present with filters, of which this rule reads only
/// whether tag filters are declared.
#[derive(Clone, Copy, Debug, PartialEq, Eq, Structural)]
pub enum PushTrigger {
    Missing,
    Defaulted,
    Body { has_tag_filters: bool },
}

/// An event-to-filter mapping trigger; only the push event's body matters
/// to this rule.
#[derive(Clone, Copy, Debug, PartialEq, Eq, Structural)]
pub struct EventMap {
    pub push: PushTrigger,
}

/// A workflow's activation condition: one event, a set of events, or a
/// mapping from events to filters.
#[derive(Debug)]
pub enum Trigger {
    BareEvent(Event),
    BareEvents(Vec<Event>),
    Events(EventMap),
}

/// Mathematical image of a `Trigger`.
pub enum TriggerView {
    BareEvent(Event),
    BareEvents(Seq<Event>),
    Events(EventMap),
}

impl View for Trigger {
    type V = TriggerView;

    open spec fn view(&self) -> TriggerView {
        match self {
            Trigger::BareEvent(e) => TriggerView::BareEvent(*e),
            Trigger::BareEvents(es) => TriggerView::BareEvents(es@),
            Trigger::Events(m) => TriggerView::Events(*m),
        }
    }
}

/// One declared configuration input of a step: a name and the declared
/// value, in its string rendering.
#[derive(Debug)]
pub struct EnvEntry {
    pub key: String,
    pub value: String,
}

/// Mathematical image of an `EnvEntry`.
pub struct EnvEntryView {
    pub key: Seq<char>,
    pub value: Seq<char>,
}

impl View for EnvEntry {
    type V = EnvEntryView;

    open spec fn view(&self) -> EnvEntryView {
        EnvEntryView { key: self.key@, value: self.value@ }
    }
}

/// A step's ordered configuration-input mapping.
#[derive(Debug)]
pub struct Env {
    pub entries: Vec<EnvEntry>,
}

impl View for Env {
    type V = Seq<EnvEntryView>;

    open spec fn view(&self) -> Seq<EnvEntryView> {
        self.entries@.map_values(|e: EnvEntry| e@)
    }
}

/// The value bound to the first entry named `key`, if any.
pub open spec fn env_lookup(env: Seq<EnvEntryView>, key: Seq<char>) -> Option<Seq<char>>
    decreases env.len(),
{
    if env.len() == 0 {
        None
    } else if env[0].key == key {
        Some(env[0].value)
    } else {
        env_lookup(env.drop_first(), key)
    }
}

impl Env {
    /// Index of the first entry named `name`, if any, together with what
    /// `env_lookup` yields for that name.
    pub fn find_entry(&self, name: &str) -> (r: Option<usize>)
        ensures
            match r {
                Some(i) => i < self@.len() && self@[i as int].key == name@ && env_lookup(
                    self@,
                    name@,
                ) == Some(self@[i as int].value),
                None => env_lookup(self@, name@) is None,
            },
    {
        let len = self.entries.len();
        let mut i: usize = 0;
        proof {
            assert(self@.skip(0) =~= self@);
        }
        while i < len
            invariant
                len == self.entries@.len(),
                self@.len() == len,
                i <= len,
                forall|j: int| 0 <= j < self@.len() ==> self@[j] == self.entries@[j]@,
                env_lookup(self@, name@) == env_lookup(self@.skip(i as int), name@),
            decreases len - i,
        {
            if crate::strutil::str_eq(self.entries[i].key.as_str(), name) {
                proof {
                    assert(self@.skip(i as int)[0] == self@[i as int]);
                }
                return Some(i);
            }
            proof {
                assert(self@.skip(i as int)[0] == self@[i as int]);
                assert(self@.skip(i as int).drop_first() =~= self@.skip(i as int + 1));
            }
            i = i + 1;
        }
        proof {
            assert(self@.skip(len as int).len() == 0);
        }
        None
    }
}

/// What a step does: invoke a reusable action (with its reference string and
/// configuration inputs), or run an inline script, which this rule never
/// evaluates.
#[derive(Debug)]
pub enum StepBody {
    Uses { uses: String, with: Env },
    Run,
}

/// Mathematical image of a `StepBody`.
pub enum StepBodyView {
    Uses { uses: Seq<char>, with: Seq<EnvEntryView> },
    Run,
}

impl View for StepBody {
    type V = StepBodyView;

    open spec fn view(&self) -> StepBodyView {
        match self {
            StepBody::Uses { uses, with } => StepBodyView::Uses { uses: uses@, with: with@ },
            StepBody::Run => StepBodyView::Run,
        }
    }
}

/// One unit of work in a job.
#[derive(Debug)]
pub struct Step {
    pub body: StepBody,
}

/// Mathematical image of a `Step`.
pub struct StepView {
    pub body: StepBodyView,
}

impl View for Step {
    type V = StepView;

    open spec fn view(&self) -> StepView {
        StepView { body: self.body@ }
    }
}

/// One execution unit of a pipeline: the trigger it inherits from its parent
/// workflow and its ordered steps.
#[derive(Debug)]
pub struct Job {
    pub trigger: Trigger,
    pub steps: Vec<Step>,
}

/// Mathematical image of a `Job`.
pub struct JobView {
    pub trigger: TriggerView,
    pub steps: Seq<StepView>,
}

/// Image of an ordered step sequence.
pub open spec fn steps_view(steps: Vec<Step>) -> Seq<StepView> {
    steps@.map_values(|s: Step| s@)
}

impl View for Job {
    type V = JobView;

    open spec fn view(&self) -> JobView {
        JobView { trigger: self.trigger@, steps: steps_view(self.steps) }
    }
}

} // verus!
