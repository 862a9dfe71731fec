//! The finding synthesizer: combines a publishing scenario and a step's
//! cache-usage verdict into one reportable finding with a fixed
//! confidence/severity pair and two annotated location anchors.

use vstd::prelude::*;

use crate::detector::PublishingArtifactsScenario;
use crate::evaluator::{cache_usage_spec, CacheUsage};
use crate::model::{Step, StepBody, StepBodyView, StepView};
use crate::CachePoisoning;

verus! {

/// How certain the rule is of a finding. This rule reasons only from static
/// declarations and never escalates past low confidence.
#[derive(Clone, Copy, Debug, PartialEq, Eq, Structural)]
pub enum Confidence {
    Low,
    Medium,
    High,
}

/// How severe a confirmed instance of a finding would be.
#[derive(Clone, Copy, Debug, PartialEq, Eq, Structural)]
pub enum Severity {
    Informational,
    Low,
    Medium,
    High,
}

/// The place a location anchors to: the workflow's trigger declaration, or
/// one of the job's steps, by declaration index.
#[derive(Clone, Copy, Debug, PartialEq, Eq, Structural)]
pub enum AnchorSite {
    WorkflowTrigger,
    Step { index: usize },
}

/// The field a location points at within its site: the trigger declaration,
/// a step's action-reference field, or its configuration-inputs field.
#[derive(Clone, Copy, Debug, PartialEq, Eq, Structural)]
pub enum AnchorKey {
    On,
    Uses,
    With,
}

/// The human-readable justification attached to a location.
#[derive(Clone, Copy, Debug, PartialEq, Eq, Structural)]
pub enum Annotation {
    PublishingTrigger,
    PublisherStep,
    AlwaysRestored,
    EnabledByDefault,
    ExplicitOptIn,
    ConditionalOptIn,
}

/// The annotation's text, as the reporting layer renders it.
pub open spec fn annotation_text(a: Annotation) -> Seq<char> {
    match a {
        Annotation::PublishingTrigger => "generally indicates artifact publishing"@,
        Annotation::PublisherStep => "this step typically publishes runtime-built artifacts"@,
        Annotation::AlwaysRestored => "caching is always restored here"@,
        Annotation::EnabledByDefault => "caching is enabled by default here"@,
        Annotation::ExplicitOptIn => "caching is explicitly opted into here"@,
        Annotation::ConditionalOptIn
            => "caching may be opted into here, depending on an unresolved expression"@,
    }
}

impl Annotation {
    /// Render the annotation for a report.
    pub fn text(&self) -> (r: String)
        ensures
            r@ == annotation_text(*self),
    {
        match self {
            Annotation::PublishingTrigger => "generally indicates artifact publishing".to_owned(),
            Annotation::PublisherStep
                => "this step typically publishes runtime-built artifacts".to_owned(),
            Annotation::AlwaysRestored => "caching is always restored here".to_owned(),
            Annotation::EnabledByDefault => "caching is enabled by default here".to_owned(),
            Annotation::ExplicitOptIn => "caching is explicitly opted into here".to_owned(),
            Annotation::ConditionalOptIn
                => "caching may be opted into here, depending on an unresolved expression".to_owned(),
        }
    }
}

/// One (location, annotation) pair of a finding. The primary location is the
/// one a report is centred on.
#[derive(Clone, Copy, Debug, PartialEq, Eq, Structural)]
pub struct AnnotatedLocation {
    pub site: AnchorSite,
    pub key: AnchorKey,
    pub primary: bool,
    pub annotation: Annotation,
}

/// An immutable report of one cache-poisoning exposure: a fixed
/// confidence/severity pair, the trust-boundary anchor, and the cache
/// anchor.
#[derive(Clone, Copy, Debug, PartialEq, Eq, Structural)]
pub struct Finding {
    pub confidence: Confidence,
    pub severity: Severity,
    pub trust_anchor: AnnotatedLocation,
    pub cache_anchor: AnnotatedLocation,
}

/// The trust-boundary anchor of a scenario: the workflow's trigger
/// declaration, or the publisher step's action-reference field.
pub open spec fn trust_anchor_for(scenario: PublishingArtifactsScenario) -> AnnotatedLocation {
    match scenario {
        PublishingArtifactsScenario::UsingTypicalWorkflowTrigger => AnnotatedLocation {
            site: AnchorSite::WorkflowTrigger,
            key: AnchorKey::On,
            primary: false,
            annotation: Annotation::PublishingTrigger,
        },
        PublishingArtifactsScenario::UsingWellKnowPublisherAction { step_index } => AnnotatedLocation {
            site: AnchorSite::Step { index: step_index },
            key: AnchorKey::Uses,
            primary: false,
            annotation: Annotation::PublisherStep,
        },
    }
}

/// The cache anchor for a verdict on the step at `index`: the verdicts that
/// hold whatever the configuration anchor on the action-reference field, the
/// opted-in ones on the configuration-inputs field.
pub open spec fn cache_anchor_for(usage: CacheUsage, index: usize) -> AnnotatedLocation {
    match usage {
        CacheUsage::AlwaysCache => AnnotatedLocation {
            site: AnchorSite::Step { index },
            key: AnchorKey::Uses,
            primary: true,
            annotation: Annotation::AlwaysRestored,
        },
        CacheUsage::DefaultActionBehaviour => AnnotatedLocation {
            site: AnchorSite::Step { index },
            key: AnchorKey::Uses,
            primary: true,
            annotation: Annotation::EnabledByDefault,
        },
        CacheUsage::DirectOptIn => AnnotatedLocation {
            site: AnchorSite::Step { index },
            key: AnchorKey::With,
            primary: true,
            annotation: Annotation::ExplicitOptIn,
        },
        CacheUsage::ConditionalOptIn => AnnotatedLocation {
            site: AnchorSite::Step { index },
            key: AnchorKey::With,
            primary: true,
            annotation: Annotation::ConditionalOptIn,
        },
    }
}

/// The one finding a scenario and a verdict synthesize: confidence is always
/// low and severity always high, with the two mandatory anchors.
pub open spec fn synthesize_finding(
    scenario: PublishingArtifactsScenario,
    index: usize,
    usage: CacheUsage,
) -> Finding {
    Finding {
        confidence: Confidence::Low,
        severity: Severity::High,
        trust_anchor: trust_anchor_for(scenario),
        cache_anchor: cache_anchor_for(usage, index),
    }
}

/// The finding, if any, for the step at `index` under `scenario`: an action
/// invocation whose cache-usage verdict is non-empty yields exactly one.
pub open spec fn step_finding(
    step: StepView,
    index: usize,
    scenario: PublishingArtifactsScenario,
) -> Option<Finding> {
    match step.body {
        StepBodyView::Uses { uses, with } => match cache_usage_spec(uses, with) {
            Some(usage) => Some(synthesize_finding(scenario, index, usage)),
            None => None,
        },
        StepBodyView::Run => None,
    }
}

impl CachePoisoning {
    /// Synthesize the finding for one step under an established scenario:
    /// none for an inline script or a step whose cache-usage verdict is
    /// empty, exactly one otherwise.
    pub fn uses_cache_aware_step(
        &self,
        step: &Step,
        step_index: usize,
        scenario: &PublishingArtifactsScenario,
    ) -> (r: Option<Finding>)
        ensures
            r == step_finding(step@, step_index, *scenario),
    {
        let (uses, with) = match &step.body {
            StepBody::Uses { uses, with } => (uses, with),
            StepBody::Run => {
                return None;
            },
        };
        let cache_usage = match self.evaluate_cache_usage(uses.as_str(), with) {
            None => {
                return None;
            },
            Some(u) => u,
        };
        let cache_anchor = match cache_usage {
            CacheUsage::AlwaysCache => AnnotatedLocation {
                site: AnchorSite::Step { index: step_index },
                key: AnchorKey::Uses,
                primary: true,
                annotation: Annotation::AlwaysRestored,
            },
            CacheUsage::DefaultActionBehaviour => AnnotatedLocation {
                site: AnchorSite::Step { index: step_index },
                key: AnchorKey::Uses,
                primary: true,
                annotation: Annotation::EnabledByDefault,
            },
            CacheUsage::DirectOptIn => AnnotatedLocation {
                site: AnchorSite::Step { index: step_index },
                key: AnchorKey::With,
                primary: true,
                annotation: Annotation::ExplicitOptIn,
            },
            CacheUsage::ConditionalOptIn => AnnotatedLocation {
                site: AnchorSite::Step { index: step_index },
                key: AnchorKey::With,
                primary: true,
                annotation: Annotation::ConditionalOptIn,
            },
        };
        let trust_anchor = match scenario {
            PublishingArtifactsScenario::UsingTypicalWorkflowTrigger => AnnotatedLocation {
                site: AnchorSite::WorkflowTrigger,
                key: AnchorKey::On,
                primary: false,
                annotation: Annotation::PublishingTrigger,
            },
            PublishingArtifactsScenario::UsingWellKnowPublisherAction { step_index } => AnnotatedLocation {
                site: AnchorSite::Step { index: *step_index },
                key: AnchorKey::Uses,
                primary: false,
                annotation: Annotation::PublisherStep,
            },
        };
        Some(
            Finding {
                confidence: Confidence::Low,
                severity: Severity::High,
                trust_anchor,
                cache_anchor,
            },
        )
    }
}

} // verus!
