//! The literal classifier: decides whether an expression is a single atomic
//! literal, interchangeable between a field initializer and a trivial
//! getter's return value.

use vstd::prelude::*;

use crate::ast::Expr;

verus! {

/// The classifier's verdict on one expression.
#[derive(Debug, Clone, Copy, PartialEq, Eq, Structural)]
pub enum LiteralVerdict {
    Supported,
    Unsupported,
}

/// Whether an expression is a supported literal: an atomic literal, or a
/// template (tagged or not) with no embedded substitution. Anything that
/// contains an embedded expression cannot be assumed constant and is
/// excluded from both directions of the check.
pub open spec fn is_supported_literal(e: Expr) -> bool {
    match e {
        Expr::StringLit { .. } => true,
        Expr::Atom { .. } => true,
        Expr::Template { substitutions } => substitutions == 0,
        Expr::TaggedTemplate { substitutions, .. } => substitutions == 0,
        _ => false,
    }
}

/// Classifies one expression.
pub fn classify(e: &Expr) -> (v: LiteralVerdict)
    ensures
        v == LiteralVerdict::Supported <==> is_supported_literal(*e),
{
    match e {
        Expr::StringLit { .. } => LiteralVerdict::Supported,
        Expr::Atom { .. } => LiteralVerdict::Supported,
        Expr::Template { substitutions } => {
            if *substitutions == 0 {
                LiteralVerdict::Supported
            } else {
                LiteralVerdict::Unsupported
            }
        },
        Expr::TaggedTemplate { substitutions, .. } => {
            if *substitutions == 0 {
                LiteralVerdict::Supported
            } else {
                LiteralVerdict::Unsupported
            }
        },
        _ => LiteralVerdict::Unsupported,
    }
}

/// Classifies one expression, as a plain truth value.
pub fn get_is_supported_literal(expression: &Expr) -> (r: bool)
    ensures
        r == is_supported_literal(*expression),
{
    classify(expression) == LiteralVerdict::Supported
}

/// A template literal is supported exactly when it embeds no substitution;
/// the tag of a tagged template never changes the verdict.
pub proof fn lemma_template_supported_iff_no_substitutions(n: usize, tag: Expr)
    ensures
        is_supported_literal(Expr::Template { substitutions: n }) <==> n == 0,
        is_supported_literal(Expr::TaggedTemplate { tag: Box::new(tag), substitutions: n }) <==> n == 0,
{
}

} // verus!
