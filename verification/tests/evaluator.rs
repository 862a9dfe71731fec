use cache_poisoning::evaluator::CacheUsage;
use cache_poisoning::model::{Env, EnvEntry};
use cache_poisoning::CachePoisoning;

fn env(pairs: &[(&str, &str)]) -> Env {
    Env {
        entries: pairs
            .iter()
            .map(|(k, v)| EnvEntry { key: k.to_string(), value: v.to_string() })
            .collect(),
    }
}

#[test]
fn unknown_action_has_no_verdict() {
    let rule = CachePoisoning::new();
    assert_eq!(rule.evaluate_cache_usage("octocat/hello-world@v1", &env(&[])), None);
}

#[test]
fn unparsable_reference_has_no_verdict() {
    let rule = CachePoisoning::new();
    assert_eq!(rule.evaluate_cache_usage("./local/action", &env(&[])), None);
}

#[test]
fn fixed_action_is_always_active() {
    let rule = CachePoisoning::new();
    assert_eq!(
        rule.evaluate_cache_usage("Mozilla-Actions/sccache-action@v0.0.4", &env(&[])),
        Some(CacheUsage::AlwaysCache)
    );
}

#[test]
fn default_on_action_without_config_is_active_by_default() {
    let rule = CachePoisoning::new();
    assert_eq!(
        rule.evaluate_cache_usage("actions/cache@v3", &env(&[])),
        Some(CacheUsage::DefaultActionBehaviour)
    );
}

#[test]
fn default_off_action_without_config_has_no_verdict() {
    let rule = CachePoisoning::new();
    assert_eq!(rule.evaluate_cache_usage("actions/setup-node@v4", &env(&[])), None);
}

#[test]
fn default_off_action_with_unrelated_inputs_has_no_verdict() {
    let rule = CachePoisoning::new();
    assert_eq!(
        rule.evaluate_cache_usage("actions/setup-node@v4", &env(&[("node-version", "20")])),
        None
    );
}

#[test]
fn opt_out_boolean_true_suppresses_verdict() {
    let rule = CachePoisoning::new();
    assert_eq!(
        rule.evaluate_cache_usage("actions/cache@v3", &env(&[("lookup-only", "true")])),
        None
    );
}

#[test]
fn opt_out_boolean_false_has_no_verdict() {
    let rule = CachePoisoning::new();
    assert_eq!(
        rule.evaluate_cache_usage("actions/cache@v3", &env(&[("lookup-only", "false")])),
        None
    );
}

#[test]
fn opt_in_string_literal_is_direct() {
    let rule = CachePoisoning::new();
    assert_eq!(
        rule.evaluate_cache_usage("actions/setup-node@v4", &env(&[("cache", "npm")])),
        Some(CacheUsage::DirectOptIn)
    );
}

#[test]
fn opt_in_boolean_true_is_direct() {
    let rule = CachePoisoning::new();
    assert_eq!(
        rule.evaluate_cache_usage("actions/setup-go@v5", &env(&[("cache", "true")])),
        Some(CacheUsage::DirectOptIn)
    );
}

#[test]
fn opt_in_boolean_false_has_no_verdict() {
    let rule = CachePoisoning::new();
    assert_eq!(
        rule.evaluate_cache_usage("actions/setup-go@v5", &env(&[("cache", "false")])),
        None
    );
}

#[test]
fn opt_in_boolean_default_on_without_config_is_active() {
    let rule = CachePoisoning::new();
    assert_eq!(
        rule.evaluate_cache_usage("actions/setup-go@v5", &env(&[])),
        Some(CacheUsage::DefaultActionBehaviour)
    );
}

#[test]
fn opt_in_boolean_other_literal_has_no_verdict() {
    let rule = CachePoisoning::new();
    assert_eq!(
        rule.evaluate_cache_usage("actions/setup-dotnet@v4", &env(&[("cache", "maybe")])),
        None
    );
}

#[test]
fn unresolved_expression_is_conditional() {
    let rule = CachePoisoning::new();
    assert_eq!(
        rule.evaluate_cache_usage(
            "actions/setup-node@v4",
            &env(&[("cache", "${{ matrix.cache }}")])
        ),
        Some(CacheUsage::ConditionalOptIn)
    );
}

#[test]
fn unresolved_expression_on_boolean_shape_is_conditional() {
    let rule = CachePoisoning::new();
    assert_eq!(
        rule.evaluate_cache_usage(
            "actions/cache@v3",
            &env(&[("lookup-only", "${{ inputs.lookup }}")])
        ),
        Some(CacheUsage::ConditionalOptIn)
    );
}

#[test]
fn opt_out_string_true_suppresses_verdict() {
    let rule = CachePoisoning::new();
    assert_eq!(
        rule.evaluate_cache_usage("astral-sh/setup-uv@v5", &env(&[("enable-cache", "true")])),
        None
    );
}

#[test]
fn opt_out_action_without_config_is_active_by_default() {
    let rule = CachePoisoning::new();
    assert_eq!(
        rule.evaluate_cache_usage("astral-sh/setup-uv@v5", &env(&[])),
        Some(CacheUsage::DefaultActionBehaviour)
    );
}

#[test]
fn first_entry_with_control_name_decides() {
    let rule = CachePoisoning::new();
    assert_eq!(
        rule.evaluate_cache_usage(
            "actions/setup-node@v4",
            &env(&[("cache", "npm"), ("cache", "false")])
        ),
        Some(CacheUsage::DirectOptIn)
    );
}

#[test]
fn expression_recognition_requires_both_delimiters() {
    assert!(cache_poisoning::expression::is_unresolved_expression("${{ matrix.cache }}"));
    assert!(cache_poisoning::expression::is_unresolved_expression("${{foo}}"));
    assert!(!cache_poisoning::expression::is_unresolved_expression("npm"));
    assert!(!cache_poisoning::expression::is_unresolved_expression("${{ missing end"));
    assert!(!cache_poisoning::expression::is_unresolved_expression("missing beginning }}"));
    assert!(!cache_poisoning::expression::is_unresolved_expression(" ${{ padded }}"));
}
