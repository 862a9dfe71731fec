//! A static-analysis rule that flags cache-poisoning exposure in CI/CD
//! pipeline jobs: a job that publishes artifacts to the outside world while
//! restoring a dependency or build cache that a less-trusted run could have
//! written.

pub mod coordinate;
pub mod detector;
pub mod evaluator;
pub mod expression;
pub mod finding;
pub mod model;
pub mod registry;
pub mod strutil;

use vstd::prelude::*;

use crate::detector::{publisher_index_from, scenario_spec, trigger_publishes, PublishingArtifactsScenario};
use crate::finding::{step_finding, AnchorSite, Confidence, Finding, Severity};
use crate::model::{Job, JobView};

verus! {

/// The cache-poisoning audit rule. It carries no state: the registries are
/// internal and every evaluation is a pure function of the job it is given.
pub struct CachePoisoning;

/// The findings for the steps at `i` and beyond under an established
/// scenario, in step-declaration order.
pub open spec fn job_findings_from(
    job: JobView,
    scenario: PublishingArtifactsScenario,
    i: int,
) -> Seq<Finding>
    decreases job.steps.len() - i,
{
    if i < 0 || i >= job.steps.len() {
        Seq::<Finding>::empty()
    } else {
        let rest = job_findings_from(job, scenario, i + 1);
        match step_finding(job.steps[i], i as usize, scenario) {
            Some(f) => seq![f] + rest,
            None => rest,
        }
    }
}

/// Everything the audit of one job reports: nothing when no publishing
/// scenario is established, else one finding per step with an active-cache
/// verdict, in step-declaration order.
pub open spec fn audit_spec(job: JobView) -> Seq<Finding> {
    match scenario_spec(job.trigger, job.steps) {
        None => Seq::<Finding>::empty(),
        Some(scenario) => job_findings_from(job, scenario, 0),
    }
}

/// Law: auditing is deterministic. The findings are a function of the job
/// alone, so two evaluations of the same job yield identical ordered lists.
pub proof fn lemma_audit_deterministic(job: JobView, first: Seq<Finding>, second: Seq<Finding>)
    requires
        first == audit_spec(job),
        second == audit_spec(job),
    ensures
        first == second,
{
}

/// Law: no scenario means no findings. A job whose trigger does not gate
/// publishing and whose steps invoke no known publisher action reports
/// nothing, whatever cache-aware actions it invokes.
pub proof fn lemma_no_scenario_no_findings(job: JobView)
    requires
        !trigger_publishes(job.trigger),
        publisher_index_from(job.steps, 0) is None,
    ensures
        audit_spec(job) == Seq::<Finding>::empty(),
{
}

/// The step a finding's cache anchor points at, where it points at one.
pub open spec fn cache_step_of(f: Finding) -> int {
    match f.cache_anchor.site {
        AnchorSite::Step { index } => index as int,
        AnchorSite::WorkflowTrigger => -1,
    }
}

/// Every finding among the steps at `k` and beyond carries the fixed
/// confidence/severity pair, and its cache anchor points at a step no
/// earlier than `k`.
proof fn lemma_findings_from_shape(
    job: JobView,
    scenario: PublishingArtifactsScenario,
    k: int,
    i: int,
)
    requires
        job.steps.len() <= usize::MAX,
        0 <= k,
        0 <= i < job_findings_from(job, scenario, k).len(),
    ensures
        job_findings_from(job, scenario, k)[i].confidence == Confidence::Low,
        job_findings_from(job, scenario, k)[i].severity == Severity::High,
        k <= cache_step_of(job_findings_from(job, scenario, k)[i]) < job.steps.len(),
    decreases job.steps.len() - k,
{
    match step_finding(job.steps[k], k as usize, scenario) {
        Some(_) => {
            if i > 0 {
                lemma_findings_from_shape(job, scenario, k + 1, i - 1);
            }
        },
        None => {
            lemma_findings_from_shape(job, scenario, k + 1, i);
        },
    }
}

/// Findings among the steps at `k` and beyond come in strictly increasing
/// step order.
proof fn lemma_findings_from_ordered(
    job: JobView,
    scenario: PublishingArtifactsScenario,
    k: int,
    i: int,
    j: int,
)
    requires
        job.steps.len() <= usize::MAX,
        0 <= k,
        0 <= i < j < job_findings_from(job, scenario, k).len(),
    ensures
        cache_step_of(job_findings_from(job, scenario, k)[i]) < cache_step_of(
            job_findings_from(job, scenario, k)[j],
        ),
    decreases job.steps.len() - k,
{
    match step_finding(job.steps[k], k as usize, scenario) {
        Some(_) => {
            if i == 0 {
                lemma_findings_from_shape(job, scenario, k + 1, j - 1);
            } else {
                lemma_findings_from_ordered(job, scenario, k + 1, i - 1, j - 1);
            }
        },
        None => {
            lemma_findings_from_ordered(job, scenario, k + 1, i, j);
        },
    }
}

/// Law: every emitted finding carries the fixed pair of low confidence and
/// high severity; the rule reasons only from static declarations and never
/// escalates.
pub proof fn lemma_fixed_confidence_and_severity(job: JobView, i: int)
    requires
        job.steps.len() <= usize::MAX,
        0 <= i < audit_spec(job).len(),
    ensures
        audit_spec(job)[i].confidence == Confidence::Low,
        audit_spec(job)[i].severity == Severity::High,
{
    let scenario = scenario_spec(job.trigger, job.steps)->Some_0;
    lemma_findings_from_shape(job, scenario, 0, i);
}

/// Law: findings for one job are emitted in step-declaration order; their
/// cache anchors point at strictly increasing step indices.
pub proof fn lemma_findings_in_step_order(job: JobView, i: int, j: int)
    requires
        job.steps.len() <= usize::MAX,
        0 <= i < j < audit_spec(job).len(),
    ensures
        cache_step_of(audit_spec(job)[i]) < cache_step_of(audit_spec(job)[j]),
{
    let scenario = scenario_spec(job.trigger, job.steps)->Some_0;
    lemma_findings_from_ordered(job, scenario, 0, i, j);
}

impl CachePoisoning {
    /// Construction never fails: the rule needs no external state.
    pub fn new() -> (r: CachePoisoning) {
        CachePoisoning
    }

    /// Audit one job: establish (or rule out) a publishing scenario, then
    /// synthesize one finding per step whose cache-usage verdict is active,
    /// in step-declaration order. Absence of findings is an empty result,
    /// never a failure.
    pub fn audit_normal_job(&self, job: &Job) -> (r: Vec<Finding>)
        ensures
            r@ == audit_spec(job@),
    {
        let mut findings: Vec<Finding> = Vec::new();
        let scenario = match self.is_job_publishing_artifacts(&job.trigger, &job.steps) {
            None => {
                return findings;
            },
            Some(s) => s,
        };
        let len = job.steps.len();
        let mut i: usize = 0;
        while i < len
            invariant
                len == job.steps@.len(),
                len == job@.steps.len(),
                i <= len,
                scenario_spec(job@.trigger, job@.steps) == Some(scenario),
                findings@ + job_findings_from(job@, scenario, i as int) == job_findings_from(
                    job@,
                    scenario,
                    0,
                ),
            decreases len - i,
        {
            let ghost prefix = findings@;
            match self.uses_cache_aware_step(&job.steps[i], i, &scenario) {
                Some(f) => {
                    findings.push(f);
                    proof {
                        let rest = job_findings_from(job@, scenario, i as int + 1);
                        assert(job@.steps[i as int] == job.steps@[i as int]@);
                        assert(job_findings_from(job@, scenario, i as int) == seq![f] + rest);
                        assert((prefix + (seq![f] + rest)) =~= ((prefix + seq![f]) + rest));
                    }
                },
                None => {
                    proof {
                        assert(job@.steps[i as int] == job.steps@[i as int]@);
                    }
                },
            }
            i = i + 1;
        }
        proof {
            assert(findings@ + job_findings_from(job@, scenario, len as int) =~= findings@);
        }
        findings
    }
}

} // verus!
