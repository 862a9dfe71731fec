//! The two fixed catalogues this rule consults: actions known to restore a
//! cache, each with a descriptor of how caching is controlled, and actions
//! known to publish artifacts externally. Both are closed, hand-curated
//! domain knowledge, built afresh on demand and never mutated.

use vstd::prelude::*;

use crate::coordinate::{same_action, Coordinate, CoordinateView};

verus! {

/// The shape of values accepted by a caching control input.
#[derive(Clone, Copy, Debug, PartialEq, Eq, Structural)]
pub enum CacheControlValue {
    BooleanLiteral,
    StringOrExpression,
}

/// The input that controls a configurable caching action.
#[derive(Debug)]
pub enum CacheControlInput {
    /// Caching becomes enabled when the control value matches.
    OptIn(String),
    /// Caching becomes disabled when the control value matches.
    OptOut(String),
}

/// Mathematical image of a `CacheControlInput`.
pub enum CacheControlInputView {
    OptIn(Seq<char>),
    OptOut(Seq<char>),
}

impl View for CacheControlInput {
    type V = CacheControlInputView;

    open spec fn view(&self) -> CacheControlInputView {
        match self {
            CacheControlInput::OptIn(s) => CacheControlInputView::OptIn(s@),
            CacheControlInput::OptOut(s) => CacheControlInputView::OptOut(s@),
        }
    }
}

/// The name of the control input, whatever its polarity.
pub open spec fn control_input_name(i: CacheControlInputView) -> Seq<char> {
    match i {
        CacheControlInputView::OptIn(s) => s,
        CacheControlInputView::OptOut(s) => s,
    }
}

/// The descriptor of a known action whose caching is configurable.
#[derive(Debug)]
pub struct ControllableCacheAction {
    /// The owner/repo coordinate of the action.
    pub uses: Coordinate,
    /// The input that controls caching behavior.
    pub control_input: CacheControlInput,
    /// The shape of value used to opt in or out.
    pub control_value: CacheControlValue,
    /// Whether the action caches when the control input is absent.
    pub caching_by_default: bool,
}

/// Mathematical image of a `ControllableCacheAction`.
pub struct ControllableCacheActionView {
    pub uses: CoordinateView,
    pub control_input: CacheControlInputView,
    pub control_value: CacheControlValue,
    pub caching_by_default: bool,
}

impl View for ControllableCacheAction {
    type V = ControllableCacheActionView;

    open spec fn view(&self) -> ControllableCacheActionView {
        ControllableCacheActionView {
            uses: self.uses@,
            control_input: self.control_input@,
            control_value: self.control_value,
            caching_by_default: self.caching_by_default,
        }
    }
}

/// A known cache-aware action: configurable, or caching always.
#[derive(Debug)]
pub enum CacheAwareAction {
    Configurable(ControllableCacheAction),
    NotConfigurable(Coordinate),
}

/// Mathematical image of a `CacheAwareAction`.
pub enum CacheAwareActionView {
    Configurable(ControllableCacheActionView),
    NotConfigurable(CoordinateView),
}

impl View for CacheAwareAction {
    type V = CacheAwareActionView;

    open spec fn view(&self) -> CacheAwareActionView {
        match self {
            CacheAwareAction::Configurable(c) => CacheAwareActionView::Configurable(c@),
            CacheAwareAction::NotConfigurable(u) => CacheAwareActionView::NotConfigurable(u@),
        }
    }
}

/// The coordinate of a catalogue entry.
pub open spec fn spec_uses(a: CacheAwareActionView) -> CoordinateView {
    match a {
        CacheAwareActionView::Configurable(c) => c.uses,
        CacheAwareActionView::NotConfigurable(u) => u,
    }
}

impl CacheAwareAction {
    /// The coordinate of this catalogue entry.
    pub fn uses(&self) -> (r: &Coordinate)
        ensures
            r@ == spec_uses(self@),
    {
        match self {
            CacheAwareAction::Configurable(inner) => &inner.uses,
            CacheAwareAction::NotConfigurable(inner) => inner,
        }
    }
}

/// A bare owner/repo coordinate, as catalogue entries are recorded.
pub open spec fn bare_coord(owner: Seq<char>, repo: Seq<char>) -> CoordinateView {
    CoordinateView { owner, repo, subpath: None, git_ref: None }
}

/// A configurable catalogue entry.
pub open spec fn configurable_entry(
    owner: Seq<char>,
    repo: Seq<char>,
    input: CacheControlInputView,
    value: CacheControlValue,
    by_default: bool,
) -> CacheAwareActionView {
    CacheAwareActionView::Configurable(
        ControllableCacheActionView {
            uses: bare_coord(owner, repo),
            control_input: input,
            control_value: value,
            caching_by_default: by_default,
        },
    )
}

/// The catalogue of known cache-aware actions.
pub open spec fn cache_aware_registry() -> Seq<CacheAwareActionView> {
    seq![
        configurable_entry(
            "actions"@,
            "cache"@,
            CacheControlInputView::OptOut("lookup-only"@),
            CacheControlValue::BooleanLiteral,
            true,
        ),
        configurable_entry(
            "actions"@,
            "setup-java"@,
            CacheControlInputView::OptIn("cache"@),
            CacheControlValue::StringOrExpression,
            false,
        ),
        configurable_entry(
            "actions"@,
            "setup-go"@,
            CacheControlInputView::OptIn("cache"@),
            CacheControlValue::BooleanLiteral,
            true,
        ),
        configurable_entry(
            "actions"@,
            "setup-node"@,
            CacheControlInputView::OptIn("cache"@),
            CacheControlValue::StringOrExpression,
            false,
        ),
        configurable_entry(
            "actions"@,
            "setup-python"@,
            CacheControlInputView::OptIn("cache"@),
            CacheControlValue::StringOrExpression,
            false,
        ),
        configurable_entry(
            "actions"@,
            "setup-dotnet"@,
            CacheControlInputView::OptIn("cache"@),
            CacheControlValue::BooleanLiteral,
            false,
        ),
        configurable_entry(
            "astral-sh"@,
            "setup-uv"@,
            CacheControlInputView::OptOut("enable-cache"@),
            CacheControlValue::StringOrExpression,
            true,
        ),
        configurable_entry(
            "Swatinem"@,
            "rust-cache"@,
            CacheControlInputView::OptOut("lookup-only"@),
            CacheControlValue::BooleanLiteral,
            true,
        ),
        configurable_entry(
            "ruby"@,
            "setup-ruby"@,
            CacheControlInputView::OptIn("bundler-cache"@),
            CacheControlValue::BooleanLiteral,
            false,
        ),
        configurable_entry(
            "PyO3"@,
            "maturin-action"@,
            CacheControlInputView::OptIn("sccache"@),
            CacheControlValue::BooleanLiteral,
            false,
        ),
        CacheAwareActionView::NotConfigurable(bare_coord("Mozilla-Actions"@, "sccache-action"@)),
    ]
}

/// The catalogue of known publisher actions: package and binary distribution
/// channels, release hosting, container registries, and cloud or edge
/// deployment targets.
pub open spec fn publisher_registry() -> Seq<CoordinateView> {
    seq![
        bare_coord("pypa"@, "gh-action-pypi-publish"@),
        bare_coord("rubygems"@, "release-gem"@),
        bare_coord("jreleaser"@, "release-action"@),
        bare_coord("goreleaser"@, "goreleaser-action"@),
        bare_coord("softprops"@, "action-gh-release"@),
        bare_coord("release-drafter"@, "release-drafter"@),
        bare_coord("googleapis"@, "release-please-action"@),
        bare_coord("docker"@, "build-push-action"@),
        bare_coord("redhat-actions"@, "push-to-registry"@),
        bare_coord("aws-actions"@, "amazon-ecs-deploy-task-definition"@),
        bare_coord("aws-actions"@, "aws-cloudformation-github-deploy"@),
        bare_coord("Azure"@, "aci-deploy"@),
        bare_coord("Azure"@, "container-apps-deploy-action"@),
        bare_coord("Azure"@, "functions-action"@),
        bare_coord("Azure"@, "sql-action"@),
        bare_coord("cloudflare"@, "wrangler-action"@),
        bare_coord("google-github-actions"@, "deploy-appengine"@),
        bare_coord("google-github-actions"@, "deploy-cloudrun"@),
        bare_coord("google-github-actions"@, "deploy-cloud-functions"@),
    ]
}

/// The coordinate names some entry of the publisher catalogue, ignoring the
/// pinned ref.
pub open spec fn is_known_publisher(c: CoordinateView) -> bool {
    exists|i: int|
        0 <= i < publisher_registry().len() && same_action(c, publisher_registry()[i])
}

/// First catalogue entry (by index) naming the same action as `c`, if any.
pub open spec fn cache_aware_index_from(c: CoordinateView, i: int) -> Option<int>
    decreases cache_aware_registry().len() - i,
{
    if i < 0 || i >= cache_aware_registry().len() {
        None
    } else if same_action(c, spec_uses(cache_aware_registry()[i])) {
        Some(i)
    } else {
        cache_aware_index_from(c, i + 1)
    }
}

/// The catalogue entry this coordinate resolves to, if any.
pub open spec fn cache_aware_lookup(c: CoordinateView) -> Option<CacheAwareActionView> {
    match cache_aware_index_from(c, 0) {
        Some(i) => Some(cache_aware_registry()[i]),
        None => None,
    }
}

fn bare(owner: &str, repo: &str) -> (r: Coordinate)
    ensures
        r@ == bare_coord(owner@, repo@),
{
    Coordinate { owner: owner.to_owned(), repo: repo.to_owned(), subpath: None, git_ref: None }
}

fn configurable(
    owner: &str,
    repo: &str,
    input: CacheControlInput,
    value: CacheControlValue,
    by_default: bool,
) -> (r: CacheAwareAction)
    ensures
        r@ == configurable_entry(owner@, repo@, input@, value, by_default),
{
    CacheAwareAction::Configurable(
        ControllableCacheAction {
            uses: bare(owner, repo),
            control_input: input,
            control_value: value,
            caching_by_default: by_default,
        },
    )
}

/// Build the catalogue of known cache-aware actions.
pub fn known_cache_aware_actions() -> (r: Vec<CacheAwareAction>)
    ensures
        r@.len() == cache_aware_registry().len(),
        forall|i: int| 0 <= i < r@.len() ==> #[trigger] r@[i]@ == cache_aware_registry()[i],
{
    let mut v: Vec<CacheAwareAction> = Vec::new();
    v.push(
        configurable(
            "actions",
            "cache",
            CacheControlInput::OptOut("lookup-only".to_owned()),
            CacheControlValue::BooleanLiteral,
            true,
        ),
    );
    v.push(
        configurable(
            "actions",
            "setup-java",
            CacheControlInput::OptIn("cache".to_owned()),
            CacheControlValue::StringOrExpression,
            false,
        ),
    );
    v.push(
        configurable(
            "actions",
            "setup-go",
            CacheControlInput::OptIn("cache".to_owned()),
            CacheControlValue::BooleanLiteral,
            true,
        ),
    );
    v.push(
        configurable(
            "actions",
            "setup-node",
            CacheControlInput::OptIn("cache".to_owned()),
            CacheControlValue::StringOrExpression,
            false,
        ),
    );
    v.push(
        configurable(
            "actions",
            "setup-python",
            CacheControlInput::OptIn("cache".to_owned()),
            CacheControlValue::StringOrExpression,
            false,
        ),
    );
    v.push(
        configurable(
            "actions",
            "setup-dotnet",
            CacheControlInput::OptIn("cache".to_owned()),
            CacheControlValue::BooleanLiteral,
            false,
        ),
    );
    v.push(
        configurable(
            "astral-sh",
            "setup-uv",
            CacheControlInput::OptOut("enable-cache".to_owned()),
            CacheControlValue::StringOrExpression,
            true,
        ),
    );
    v.push(
        configurable(
            "Swatinem",
            "rust-cache",
            CacheControlInput::OptOut("lookup-only".to_owned()),
            CacheControlValue::BooleanLiteral,
            true,
        ),
    );
    v.push(
        configurable(
            "ruby",
            "setup-ruby",
            CacheControlInput::OptIn("bundler-cache".to_owned()),
            CacheControlValue::BooleanLiteral,
            false,
        ),
    );
    v.push(
        configurable(
            "PyO3",
            "maturin-action",
            CacheControlInput::OptIn("sccache".to_owned()),
            CacheControlValue::BooleanLiteral,
            false,
        ),
    );
    v.push(CacheAwareAction::NotConfigurable(bare("Mozilla-Actions", "sccache-action")));
    v
}

/// Build the catalogue of known publisher actions.
pub fn known_publisher_actions() -> (r: Vec<Coordinate>)
    ensures
        r@.len() == publisher_registry().len(),
        forall|i: int| 0 <= i < r@.len() ==> #[trigger] r@[i]@ == publisher_registry()[i],
{
    let mut v: Vec<Coordinate> = Vec::new();
    v.push(bare("pypa", "gh-action-pypi-publish"));
    v.push(bare("rubygems", "release-gem"));
    v.push(bare("jreleaser", "release-action"));
    v.push(bare("goreleaser", "goreleaser-action"));
    v.push(bare("softprops", "action-gh-release"));
    v.push(bare("release-drafter", "release-drafter"));
    v.push(bare("googleapis", "release-please-action"));
    v.push(bare("docker", "build-push-action"));
    v.push(bare("redhat-actions", "push-to-registry"));
    v.push(bare("aws-actions", "amazon-ecs-deploy-task-definition"));
    v.push(bare("aws-actions", "aws-cloudformation-github-deploy"));
    v.push(bare("Azure", "aci-deploy"));
    v.push(bare("Azure", "container-apps-deploy-action"));
    v.push(bare("Azure", "functions-action"));
    v.push(bare("Azure", "sql-action"));
    v.push(bare("cloudflare", "wrangler-action"));
    v.push(bare("google-github-actions", "deploy-appengine"));
    v.push(bare("google-github-actions", "deploy-cloudrun"));
    v.push(bare("google-github-actions", "deploy-cloud-functions"));
    v
}

} // verus!
