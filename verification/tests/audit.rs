use cache_poisoning::finding::{AnchorKey, AnchorSite, Annotation, Confidence, Severity};
use cache_poisoning::model::{
    Env, EnvEntry, Event, EventMap, Job, PushTrigger, Step, StepBody, Trigger,
};
use cache_poisoning::CachePoisoning;

fn uses_step(reference: &str, pairs: &[(&str, &str)]) -> Step {
    Step {
        body: StepBody::Uses {
            uses: reference.to_string(),
            with: Env {
                entries: pairs
                    .iter()
                    .map(|(k, v)| EnvEntry { key: k.to_string(), value: v.to_string() })
                    .collect(),
            },
        },
    }
}

fn tag_push_trigger() -> Trigger {
    Trigger::Events(EventMap { push: PushTrigger::Body { has_tag_filters: true } })
}

#[test]
fn release_trigger_with_fixed_cache_action() {
    let rule = CachePoisoning::new();
    let job = Job {
        trigger: Trigger::BareEvent(Event::Release),
        steps: vec![uses_step("Mozilla-Actions/sccache-action@v0.0.4", &[])],
    };
    let findings = rule.audit_normal_job(&job);
    assert_eq!(findings.len(), 1);
    let f = findings[0];
    assert_eq!(f.confidence, Confidence::Low);
    assert_eq!(f.severity, Severity::High);
    assert_eq!(f.trust_anchor.site, AnchorSite::WorkflowTrigger);
    assert_eq!(f.trust_anchor.key, AnchorKey::On);
    assert_eq!(f.trust_anchor.annotation, Annotation::PublishingTrigger);
    assert_eq!(f.cache_anchor.site, AnchorSite::Step { index: 0 });
    assert_eq!(f.cache_anchor.key, AnchorKey::Uses);
    assert_eq!(f.cache_anchor.annotation, Annotation::AlwaysRestored);
    assert_eq!(f.cache_anchor.annotation.text(), "caching is always restored here");
}

#[test]
fn release_trigger_with_explicit_opt_out() {
    let rule = CachePoisoning::new();
    let job = Job {
        trigger: Trigger::BareEvent(Event::Release),
        steps: vec![uses_step("actions/cache@v3", &[("lookup-only", "true")])],
    };
    assert_eq!(rule.audit_normal_job(&job).len(), 0);
}

#[test]
fn tag_push_with_string_opt_in() {
    let rule = CachePoisoning::new();
    let job = Job {
        trigger: tag_push_trigger(),
        steps: vec![uses_step("actions/setup-node@v4", &[("cache", "npm")])],
    };
    let findings = rule.audit_normal_job(&job);
    assert_eq!(findings.len(), 1);
    let f = findings[0];
    assert_eq!(f.cache_anchor.key, AnchorKey::With);
    assert_eq!(f.cache_anchor.annotation, Annotation::ExplicitOptIn);
    assert_eq!(f.cache_anchor.annotation.text(), "caching is explicitly opted into here");
}

#[test]
fn tag_push_with_unresolved_expression() {
    let rule = CachePoisoning::new();
    let job = Job {
        trigger: tag_push_trigger(),
        steps: vec![uses_step("actions/setup-node@v4", &[("cache", "${{ matrix.cache }}")])],
    };
    let findings = rule.audit_normal_job(&job);
    assert_eq!(findings.len(), 1);
    let f = findings[0];
    assert_eq!(f.cache_anchor.key, AnchorKey::With);
    assert_eq!(f.cache_anchor.annotation, Annotation::ConditionalOptIn);
    assert_eq!(
        f.cache_anchor.annotation.text(),
        "caching may be opted into here, depending on an unresolved expression"
    );
}

#[test]
fn publisher_step_scenario_anchors_both_steps() {
    let rule = CachePoisoning::new();
    let job = Job {
        trigger: Trigger::BareEvent(Event::PullRequest),
        steps: vec![
            uses_step("actions/cache@v3", &[]),
            uses_step("pypa/gh-action-pypi-publish@release/v1", &[]),
        ],
    };
    let findings = rule.audit_normal_job(&job);
    assert_eq!(findings.len(), 1);
    let f = findings[0];
    assert_eq!(f.trust_anchor.site, AnchorSite::Step { index: 1 });
    assert_eq!(f.trust_anchor.key, AnchorKey::Uses);
    assert_eq!(f.trust_anchor.annotation, Annotation::PublisherStep);
    assert_eq!(
        f.trust_anchor.annotation.text(),
        "this step typically publishes runtime-built artifacts"
    );
    assert_eq!(f.cache_anchor.site, AnchorSite::Step { index: 0 });
    assert_eq!(f.cache_anchor.annotation, Annotation::EnabledByDefault);
    assert_eq!(f.cache_anchor.annotation.text(), "caching is enabled by default here");
}

#[test]
fn no_publishing_signal_means_no_findings() {
    let rule = CachePoisoning::new();
    let job = Job {
        trigger: Trigger::BareEvent(Event::PullRequest),
        steps: vec![
            uses_step("actions/cache@v3", &[]),
            uses_step("actions/setup-go@v5", &[("cache", "true")]),
        ],
    };
    assert_eq!(rule.audit_normal_job(&job).len(), 0);
}

#[test]
fn findings_follow_step_declaration_order() {
    let rule = CachePoisoning::new();
    let job = Job {
        trigger: Trigger::BareEvent(Event::Release),
        steps: vec![
            uses_step("actions/setup-node@v4", &[("cache", "npm")]),
            Step { body: StepBody::Run },
            uses_step("actions/cache@v3", &[]),
        ],
    };
    let findings = rule.audit_normal_job(&job);
    assert_eq!(findings.len(), 2);
    assert_eq!(findings[0].cache_anchor.site, AnchorSite::Step { index: 0 });
    assert_eq!(findings[1].cache_anchor.site, AnchorSite::Step { index: 2 });
}

#[test]
fn trigger_annotation_text() {
    assert_eq!(
        Annotation::PublishingTrigger.text(),
        "generally indicates artifact publishing"
    );
}
