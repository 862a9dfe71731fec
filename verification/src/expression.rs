//! Recognition of unresolved workflow expressions: configuration values
//! written as `${{ ... }}`, whose runtime value static analysis cannot know.

use vstd::prelude::*;

verus! {

/// `s` is an explicit workflow expression: it starts with `${{` and ends
/// with `}}`.
pub open spec fn is_explicit_expr(s: Seq<char>) -> bool {
    &&& s.len() >= 3
    &&& s.subrange(0, 3) == "${{"@
    &&& s.subrange(s.len() - 2, s.len() as int) == "}}"@
}

#[verifier::external_type_specification]
#[verifier::external_body]
pub struct ExExplicitExpr(github_actions_models::common::expr::ExplicitExpr);

/// Relies on `ExplicitExpr::from_curly`: it returns `Some` exactly when the
/// input starts with `${{` and ends with `}}`.
#[verifier::external_body]
fn from_curly(s: &str) -> (r: Option<github_actions_models::common::expr::ExplicitExpr>)
    ensures
        r is Some == is_explicit_expr(s@),
{
    github_actions_models::common::expr::ExplicitExpr::from_curly(s)
}

/// Is this declared value an unresolved workflow expression?
pub fn is_unresolved_expression(s: &str) -> (r: bool)
    ensures
        r == is_explicit_expr(s@),
{
    match from_curly(s) {
        Some(_) => true,
        None => false,
    }
}

} // verus!
