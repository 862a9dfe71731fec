use cache_poisoning::detector::PublishingArtifactsScenario;
use cache_poisoning::model::{
    Env, EnvEntry, Event, EventMap, Job, PushTrigger, Step, StepBody, Trigger,
};
use cache_poisoning::CachePoisoning;

fn uses_step(reference: &str, pairs: &[(&str, &str)]) -> Step {
    Step {
        body: StepBody::Uses {
            uses: reference.to_string(),
            with: Env {
                entries: pairs
                    .iter()
                    .map(|(k, v)| EnvEntry { key: k.to_string(), value: v.to_string() })
                    .collect(),
            },
        },
    }
}

fn run_step() -> Step {
    Step { body: StepBody::Run }
}

#[test]
fn bare_release_event_publishes() {
    let rule = CachePoisoning::new();
    assert!(rule.trigger_used_when_publishing_artifacts(&Trigger::BareEvent(Event::Release)));
}

#[test]
fn bare_pull_request_event_does_not_publish() {
    let rule = CachePoisoning::new();
    assert!(!rule.trigger_used_when_publishing_artifacts(&Trigger::BareEvent(Event::PullRequest)));
}

#[test]
fn event_set_with_release_publishes() {
    let rule = CachePoisoning::new();
    let trigger = Trigger::BareEvents(vec![Event::Push, Event::Release]);
    assert!(rule.trigger_used_when_publishing_artifacts(&trigger));
}

#[test]
fn event_set_without_release_does_not_publish() {
    let rule = CachePoisoning::new();
    let trigger = Trigger::BareEvents(vec![Event::Push, Event::PullRequest]);
    assert!(!rule.trigger_used_when_publishing_artifacts(&trigger));
}

#[test]
fn push_with_tag_filters_publishes() {
    let rule = CachePoisoning::new();
    let trigger = Trigger::Events(EventMap { push: PushTrigger::Body { has_tag_filters: true } });
    assert!(rule.trigger_used_when_publishing_artifacts(&trigger));
}

#[test]
fn push_without_tag_filters_does_not_publish() {
    let rule = CachePoisoning::new();
    for push in [
        PushTrigger::Missing,
        PushTrigger::Defaulted,
        PushTrigger::Body { has_tag_filters: false },
    ] {
        let trigger = Trigger::Events(EventMap { push });
        assert!(!rule.trigger_used_when_publishing_artifacts(&trigger));
    }
}

#[test]
fn finds_first_publisher_step() {
    let steps = vec![
        run_step(),
        uses_step("actions/checkout@v4", &[]),
        uses_step("pypa/gh-action-pypi-publish@release/v1", &[]),
        uses_step("softprops/action-gh-release@v2", &[]),
    ];
    assert_eq!(CachePoisoning::detected_well_known_publisher_step(&steps), Some(2));
}

#[test]
fn no_publisher_step_in_plain_build() {
    let steps = vec![run_step(), uses_step("actions/checkout@v4", &[])];
    assert_eq!(CachePoisoning::detected_well_known_publisher_step(&steps), None);
}

#[test]
fn trigger_signal_wins_over_publisher_step() {
    let rule = CachePoisoning::new();
    let steps = vec![uses_step("goreleaser/goreleaser-action@v6", &[])];
    let scenario = rule
        .is_job_publishing_artifacts(&Trigger::BareEvent(Event::Release), &steps)
        .unwrap();
    assert_eq!(scenario, PublishingArtifactsScenario::UsingTypicalWorkflowTrigger);
}

#[test]
fn publisher_step_applies_under_any_trigger() {
    let rule = CachePoisoning::new();
    let steps = vec![run_step(), uses_step("docker/build-push-action@v6", &[])];
    let scenario = rule
        .is_job_publishing_artifacts(&Trigger::BareEvent(Event::PullRequest), &steps)
        .unwrap();
    assert_eq!(
        scenario,
        PublishingArtifactsScenario::UsingWellKnowPublisherAction { step_index: 1 }
    );
}

#[test]
fn no_signal_yields_no_scenario() {
    let rule = CachePoisoning::new();
    let steps = vec![uses_step("actions/checkout@v4", &[]), uses_step("actions/cache@v3", &[])];
    assert_eq!(
        rule.is_job_publishing_artifacts(&Trigger::BareEvent(Event::PullRequest), &steps),
        None
    );
}

#[test]
fn audit_is_deterministic() {
    let rule = CachePoisoning::new();
    let job = Job {
        trigger: Trigger::BareEvent(Event::Release),
        steps: vec![
            uses_step("actions/checkout@v4", &[]),
            uses_step("actions/setup-node@v4", &[("cache", "npm")]),
            uses_step("actions/cache@v3", &[]),
        ],
    };
    let first = rule.audit_normal_job(&job);
    let second = rule.audit_normal_job(&job);
    assert_eq!(first, second);
    assert_eq!(first.len(), 2);
}
