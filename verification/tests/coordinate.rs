use cache_poisoning::coordinate::from_step;

#[test]
fn parses_owner_and_repo() {
    let c = from_step("actions/cache").unwrap();
    assert_eq!(c.owner, "actions");
    assert_eq!(c.repo, "cache");
    assert!(c.subpath.is_none());
    assert!(c.git_ref.is_none());
}

#[test]
fn parses_pinned_ref() {
    let c = from_step("actions/cache@v3").unwrap();
    assert_eq!(c.owner, "actions");
    assert_eq!(c.repo, "cache");
    assert!(c.subpath.is_none());
    assert_eq!(c.git_ref.as_deref(), Some("v3"));
}

#[test]
fn parses_subpath() {
    let c = from_step("github/codeql-action/init@v2").unwrap();
    assert_eq!(c.owner, "github");
    assert_eq!(c.repo, "codeql-action");
    assert_eq!(c.subpath.as_deref(), Some("init"));
    assert_eq!(c.git_ref.as_deref(), Some("v2"));
}

#[test]
fn parses_nested_subpath() {
    let c = from_step("octo/mono/tools/setup").unwrap();
    assert_eq!(c.owner, "octo");
    assert_eq!(c.repo, "mono");
    assert_eq!(c.subpath.as_deref(), Some("tools/setup"));
}

#[test]
fn rejects_bare_name() {
    assert!(from_step("checkout").is_none());
}

#[test]
fn rejects_local_path() {
    assert!(from_step("./.github/actions/build").is_none());
}

#[test]
fn rejects_docker_reference() {
    assert!(from_step("docker://alpine:3.8").is_none());
}

#[test]
fn rejects_empty_ref() {
    assert!(from_step("actions/cache@").is_none());
}

#[test]
fn rejects_empty_repo() {
    assert!(from_step("actions/").is_none());
}

#[test]
fn matching_ignores_pinned_ref() {
    let pinned = from_step("actions/cache@v3").unwrap();
    let sha_pinned = from_step(
        "actions/cache@1bd1e32a3bdc45362d1e726936510720a7c30a57",
    )
    .unwrap();
    let unpinned = from_step("actions/cache").unwrap();
    assert!(pinned.matches(&unpinned));
    assert!(unpinned.matches(&pinned));
    assert!(pinned.matches(&sha_pinned));
}

#[test]
fn matching_distinguishes_subpath() {
    let with_sub = from_step("github/codeql-action/init@v2").unwrap();
    let without_sub = from_step("github/codeql-action@v2").unwrap();
    assert!(!with_sub.matches(&without_sub));
}

#[test]
fn matching_distinguishes_owner() {
    let a = from_step("actions/cache").unwrap();
    let b = from_step("octocat/cache").unwrap();
    assert!(!a.matches(&b));
}
