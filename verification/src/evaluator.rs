//! The cache-usage evaluator: given a step's action reference and its
//! declared configuration inputs, decides whether caching is actually active
//! for that step, and with what certainty.

use vstd::prelude::*;

use crate::coordinate;
use crate::coordinate::parse_action_ref;
use crate::expression;
use crate::expression::is_explicit_expr;
use crate::model::{env_lookup, Env, EnvEntryView};
use crate::registry::{
    cache_aware_index_from, cache_aware_lookup, cache_aware_registry, control_input_name,
    known_cache_aware_actions, CacheAwareAction, CacheAwareActionView, CacheControlInput,
    CacheControlInputView, CacheControlValue, ControllableCacheAction,
    ControllableCacheActionView,
};
use crate::strutil;
use crate::CachePoisoning;

verus! {

/// The evaluator's verdict for one step: how certain the rule is that the
/// step restores a cache.
#[derive(Clone, Copy, Debug, PartialEq, Eq, Structural)]
pub enum CacheUsage {
    /// Activation depends on an unresolved expression.
    ConditionalOptIn,
    /// The configuration explicitly activates caching.
    DirectOptIn,
    /// The control input is absent and the action caches by default.
    DefaultActionBehaviour,
    /// The action always restores a cache; no configuration toggles it.
    AlwaysCache,
}

/// How a declared control value reads, before polarity is applied.
#[derive(Clone, Copy, Debug, PartialEq, Eq, Structural)]
pub enum ControlSignal {
    /// A statically resolvable activation value.
    Direct,
    /// An unresolved expression: the runtime value cannot be known.
    Conditional,
    /// An explicit `"false"`, or a value that matches no accepted shape.
    NoSignal,
}

/// Classify one declared control value against the descriptor's accepted
/// shape. The literals `"true"` and `"false"` are special-cased for either
/// shape; an unresolved expression is conditional; any other literal
/// activates a string-shaped control and means nothing to a boolean one.
pub open spec fn classify_value(shape: CacheControlValue, v: Seq<char>) -> ControlSignal {
    if v == "true"@ {
        ControlSignal::Direct
    } else if v == "false"@ {
        ControlSignal::NoSignal
    } else if is_explicit_expr(v) {
        ControlSignal::Conditional
    } else if shape == CacheControlValue::StringOrExpression {
        ControlSignal::Direct
    } else {
        ControlSignal::NoSignal
    }
}

/// Apply the control input's polarity to a classified signal. A direct
/// signal follows the polarity: it opts in, or it explicitly disables
/// caching. A conditional signal is polarity-independent: it is reported
/// with lower certainty either way.
pub open spec fn apply_polarity(
    input: CacheControlInputView,
    sig: ControlSignal,
) -> Option<CacheUsage> {
    match sig {
        ControlSignal::Direct => match input {
            CacheControlInputView::OptIn(_) => Some(CacheUsage::DirectOptIn),
            CacheControlInputView::OptOut(_) => None,
        },
        ControlSignal::Conditional => Some(CacheUsage::ConditionalOptIn),
        ControlSignal::NoSignal => None,
    }
}

/// What an absent control input means: the action's default behavior.
pub open spec fn default_behaviour(c: ControllableCacheActionView) -> Option<CacheUsage> {
    if c.caching_by_default {
        Some(CacheUsage::DefaultActionBehaviour)
    } else {
        None
    }
}

/// The declared signal for a control input bound in the configuration, as
/// `evaluate_user_defined_opt_in` reports it: classified but not yet run
/// through the input's polarity.
pub open spec fn declared_usage(
    shape: CacheControlValue,
    env: Seq<EnvEntryView>,
    key: Seq<char>,
) -> Option<CacheUsage> {
    match env_lookup(env, key) {
        None => None,
        Some(v) => match classify_value(shape, v) {
            ControlSignal::Direct => Some(CacheUsage::DirectOptIn),
            ControlSignal::Conditional => Some(CacheUsage::ConditionalOptIn),
            ControlSignal::NoSignal => None,
        },
    }
}

/// The verdict for a configurable descriptor under a configuration-input
/// mapping: the default behavior when the control input is absent, else the
/// classified value with polarity applied.
pub open spec fn config_usage(
    c: ControllableCacheActionView,
    env: Seq<EnvEntryView>,
) -> Option<CacheUsage> {
    match env_lookup(env, control_input_name(c.control_input)) {
        None => default_behaviour(c),
        Some(v) => apply_polarity(c.control_input, classify_value(c.control_value, v)),
    }
}

/// The verdict for a step: the action reference must parse, must resolve to
/// a catalogue entry ignoring the pinned ref, and the entry's descriptor is
/// then evaluated against the step's configuration.
pub open spec fn cache_usage_spec(uses: Seq<char>, env: Seq<EnvEntryView>) -> Option<CacheUsage> {
    match parse_action_ref(uses) {
        None => None,
        Some(c) => match cache_aware_lookup(c) {
            None => None,
            Some(entry) => match entry {
                CacheAwareActionView::Configurable(cc) => config_usage(cc, env),
                CacheAwareActionView::NotConfigurable(_) => Some(CacheUsage::AlwaysCache),
            },
        },
    }
}

/// Law: a configurable action that does not cache by default yields no
/// verdict for an empty configuration-input mapping; caching is off and the
/// user did not opt in.
pub proof fn lemma_default_off_needs_opt_in(c: ControllableCacheActionView)
    requires
        !c.caching_by_default,
    ensures
        config_usage(c, Seq::<EnvEntryView>::empty()) is None,
{
}

/// Law: for an opt-out control input of boolean shape, a literal `"true"`
/// explicitly disables caching, so the step yields no verdict.
pub proof fn lemma_opt_out_explicit_disable(
    c: ControllableCacheActionView,
    env: Seq<EnvEntryView>,
)
    requires
        c.control_input matches CacheControlInputView::OptOut(_),
        c.control_value == CacheControlValue::BooleanLiteral,
        env_lookup(env, control_input_name(c.control_input)) == Some("true"@),
    ensures
        config_usage(c, env) is None,
{
}

impl CachePoisoning {
    /// The verdict a configurable action carries when its control input is
    /// not declared at all.
    pub fn evaluate_default_action_behaviour(action: &ControllableCacheAction) -> (r: Option<
        CacheUsage,
    >)
        ensures
            r == default_behaviour(action@),
    {
        if action.caching_by_default {
            Some(CacheUsage::DefaultActionBehaviour)
        } else {
            None
        }
    }

    /// Classify the value the user bound to the control input, before the
    /// input's polarity is applied.
    pub fn evaluate_user_defined_opt_in(
        cache_control_input: &str,
        env: &Env,
        action: &ControllableCacheAction,
    ) -> (r: Option<CacheUsage>)
        ensures
            r == declared_usage(action@.control_value, env@, cache_control_input@),
    {
        let entry = match env.find_entry(cache_control_input) {
            None => {
                return None;
            },
            Some(i) => i,
        };
        let value = &env.entries[entry].value;
        if strutil::str_eq(value.as_str(), "true") {
            Some(CacheUsage::DirectOptIn)
        } else if strutil::str_eq(value.as_str(), "false") {
            None
        } else if expression::is_unresolved_expression(value.as_str()) {
            Some(CacheUsage::ConditionalOptIn)
        } else if action.control_value == CacheControlValue::StringOrExpression {
            Some(CacheUsage::DirectOptIn)
        } else {
            None
        }
    }

    /// The verdict for one configurable descriptor under the step's
    /// configuration-input mapping.
    pub fn usage_of_controllable_caching(
        &self,
        env: &Env,
        controllable: &ControllableCacheAction,
    ) -> (r: Option<CacheUsage>)
        ensures
            r == config_usage(controllable@, env@),
    {
        let input_name: &String = match controllable.control_input {
            CacheControlInput::OptIn(ref inner) => inner,
            CacheControlInput::OptOut(ref inner) => inner,
        };
        match env.find_entry(input_name.as_str()) {
            // When the specific control input is not used, the action's
            // default behavior decides.
            None => Self::evaluate_default_action_behaviour(controllable),
            // Otherwise, infer from the value assigned to the control input
            // and apply the input's polarity.
            Some(_) => {
                let declared = Self::evaluate_user_defined_opt_in(
                    input_name.as_str(),
                    env,
                    controllable,
                );
                match declared {
                    Some(CacheUsage::DirectOptIn) => match controllable.control_input {
                        CacheControlInput::OptIn(_) => declared,
                        // The user opted out of caching: no verdict.
                        CacheControlInput::OptOut(_) => None,
                    },
                    // A conditional signal cannot be resolved statically and
                    // is kept whatever the polarity.
                    _ => declared,
                }
            },
        }
    }

    /// The verdict for a step's action reference and configuration: resolve
    /// the reference against the cache-aware catalogue, then evaluate the
    /// matched descriptor.
    pub fn evaluate_cache_usage(&self, target_step: &str, env: &Env) -> (r: Option<CacheUsage>)
        ensures
            r == cache_usage_spec(target_step@, env@),
    {
        let target = match coordinate::from_step(target_step) {
            None => {
                return None;
            },
            Some(c) => c,
        };
        let registry = known_cache_aware_actions();
        let len = registry.len();
        let mut i: usize = 0;
        while i < len
            invariant
                len == registry@.len(),
                len == cache_aware_registry().len(),
                forall|k: int|
                    0 <= k < registry@.len() ==> #[trigger] registry@[k]@
                        == cache_aware_registry()[k],
                i <= len,
                target@ == parse_action_ref(target_step@)->Some_0,
                parse_action_ref(target_step@) is Some,
                cache_aware_index_from(target@, 0) == cache_aware_index_from(target@, i as int),
            decreases len - i,
        {
            if target.matches(registry[i].uses()) {
                proof {
                    assert(cache_aware_index_from(target@, i as int) == Some(i as int));
                    assert(cache_aware_lookup(target@) == Some(cache_aware_registry()[i as int]));
                }
                match &registry[i] {
                    CacheAwareAction::Configurable(action) => {
                        return self.usage_of_controllable_caching(env, action);
                    },
                    CacheAwareAction::NotConfigurable(_) => {
                        return Some(CacheUsage::AlwaysCache);
                    },
                }
            }
            i = i + 1;
        }
        None
    }
}

} // verus!
