//! The publishing-scenario detector: given a job's trigger and its ordered
//! steps, decides whether the job executes in a publishing context, and
//! through which of two independently sufficient signals.

use vstd::prelude::*;

use crate::coordinate;
use crate::coordinate::{parse_action_ref, same_action};
use crate::model::{steps_view, Event, PushTrigger, Step, StepBody, StepBodyView, StepView, Trigger, TriggerView};
use crate::registry::{is_known_publisher, known_publisher_actions, publisher_registry};
use crate::CachePoisoning;

verus! {

/// The publishing context a job was found to run in: its trigger implies
/// artifact publishing, or one of its steps invokes a well-known publisher
/// action (identified by its position in the job).
#[derive(Clone, Copy, Debug, PartialEq, Eq, Structural)]
pub enum PublishingArtifactsScenario {
    UsingTypicalWorkflowTrigger,
    UsingWellKnowPublisherAction { step_index: usize },
}

/// A trigger conventionally gates a release when it is (or contains) the
/// release event, or when it maps the push event to a filter set that
/// declares tag filters.
pub open spec fn trigger_publishes(t: TriggerView) -> bool {
    match t {
        TriggerView::BareEvent(e) => e == Event::Release,
        TriggerView::BareEvents(es) => es.contains(Event::Release),
        TriggerView::Events(m) => m.push matches PushTrigger::Body { has_tag_filters }
            && has_tag_filters,
    }
}

/// The step invokes an action that the publisher catalogue knows, ignoring
/// the pinned ref. An inline script or an unparsable reference never does.
pub open spec fn step_uses_publisher(s: StepView) -> bool {
    match s.body {
        StepBodyView::Uses { uses, .. } => parse_action_ref(uses) matches Some(c)
            && is_known_publisher(c),
        StepBodyView::Run => false,
    }
}

/// First step (by declaration order, from `i` on) invoking a known publisher
/// action, if any.
pub open spec fn publisher_index_from(steps: Seq<StepView>, i: int) -> Option<int>
    decreases steps.len() - i,
{
    if i < 0 || i >= steps.len() {
        None
    } else if step_uses_publisher(steps[i]) {
        Some(i)
    } else {
        publisher_index_from(steps, i + 1)
    }
}

/// The scenario a job is audited under, first match winning: the trigger
/// signal, then the publisher-step signal. Both are independently
/// sufficient; absence of both puts the job out of scope.
pub open spec fn scenario_spec(trigger: TriggerView, steps: Seq<StepView>) -> Option<
    PublishingArtifactsScenario,
> {
    if trigger_publishes(trigger) {
        Some(PublishingArtifactsScenario::UsingTypicalWorkflowTrigger)
    } else {
        match publisher_index_from(steps, 0) {
            Some(i) => Some(
                PublishingArtifactsScenario::UsingWellKnowPublisherAction {
                    step_index: i as usize,
                },
            ),
            None => None,
        }
    }
}

/// Does this step invoke a known publisher action? Reports the parsed
/// coordinate's match against the publisher catalogue.
fn step_is_publisher_exec(step: &Step) -> (r: bool)
    ensures
        r == step_uses_publisher(step@),
{
    let uses = match &step.body {
        StepBody::Uses { uses, .. } => uses,
        StepBody::Run => {
            return false;
        },
    };
    let target = match coordinate::from_step(uses.as_str()) {
        None => {
            return false;
        },
        Some(c) => c,
    };
    let publishers = known_publisher_actions();
    let len = publishers.len();
    let mut j: usize = 0;
    while j < len
        invariant
            len == publishers@.len(),
            len == publisher_registry().len(),
            forall|k: int|
                0 <= k < publishers@.len() ==> #[trigger] publishers@[k]@
                    == publisher_registry()[k],
            j <= len,
            forall|k: int| 0 <= k < j ==> !same_action(target@, publisher_registry()[k]),
            step@.body matches StepBodyView::Uses { uses: u, .. } && u == uses@,
            parse_action_ref(uses@) == Some(target@),
        decreases len - j,
    {
        if target.matches(&publishers[j]) {
            proof {
                assert(is_known_publisher(target@)) by {
                    assert(0 <= j < publisher_registry().len() && same_action(
                        target@,
                        publisher_registry()[j as int],
                    ));
                }
            }
            return true;
        }
        j = j + 1;
    }
    proof {
        assert(!is_known_publisher(target@));
    }
    false
}

impl CachePoisoning {
    /// Does the trigger conventionally gate artifact publishing? True for
    /// the release event, alone or among others, and for a push trigger
    /// restricted by tag filters.
    pub fn trigger_used_when_publishing_artifacts(&self, trigger: &Trigger) -> (r: bool)
        ensures
            r == trigger_publishes(trigger@),
    {
        match trigger {
            Trigger::BareEvent(event) => *event == Event::Release,
            Trigger::BareEvents(events) => {
                let len = events.len();
                let mut i: usize = 0;
                while i < len
                    invariant
                        len == events@.len(),
                        i <= len,
                        forall|j: int| 0 <= j < i ==> events@[j] != Event::Release,
                        trigger@ == TriggerView::BareEvents(events@),
                    decreases len - i,
                {
                    if events[i] == Event::Release {
                        proof {
                            assert(events@.contains(Event::Release)) by {
                                assert(0 <= i < events@.len() && events@[i as int]
                                    == Event::Release);
                            }
                        }
                        return true;
                    }
                    i = i + 1;
                }
                false
            },
            Trigger::Events(events) => match events.push {
                PushTrigger::Body { has_tag_filters } => has_tag_filters,
                _ => false,
            },
        }
    }

    /// First step, in declaration order, that invokes a well-known publisher
    /// action; its index anchors the publisher-step scenario.
    pub fn detected_well_known_publisher_step(steps: &Vec<Step>) -> (r: Option<usize>)
        ensures
            match r {
                Some(i) => publisher_index_from(steps_view(*steps), 0) == Some(i as int),
                None => publisher_index_from(steps_view(*steps), 0) is None,
            },
    {
        let len = steps.len();
        let mut i: usize = 0;
        while i < len
            invariant
                len == steps@.len(),
                i <= len,
                publisher_index_from(steps_view(*steps), 0) == publisher_index_from(
                    steps_view(*steps),
                    i as int,
                ),
            decreases len - i,
        {
            if step_is_publisher_exec(&steps[i]) {
                return Some(i);
            }
            i = i + 1;
        }
        None
    }

    /// Establish, or rule out, a publishing scenario for a job: the trigger
    /// signal first, then the first publisher step.
    pub fn is_job_publishing_artifacts(&self, trigger: &Trigger, steps: &Vec<Step>) -> (r: Option<
        PublishingArtifactsScenario,
    >)
        ensures
            r == scenario_spec(trigger@, steps_view(*steps)),
    {
        if self.trigger_used_when_publishing_artifacts(trigger) {
            return Some(PublishingArtifactsScenario::UsingTypicalWorkflowTrigger);
        }
        match Self::detected_well_known_publisher_step(steps) {
            Some(i) => Some(
                PublishingArtifactsScenario::UsingWellKnowPublisherAction { step_index: i },
            ),
            None => None,
        }
    }
}

} // verus!
