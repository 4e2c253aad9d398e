//! The rule itself: configuration resolution and the per-member visit entry
//! point that routes a member to the checker for the configured style.

use vstd::prelude::*;

use crate::ast::ClassBody;
use crate::ast::ClassMember;
use crate::check::check_fields_preferred;
use crate::check::check_getters_preferred;
use crate::check::run_post;
use crate::check::spec_siblings;
use crate::check::Violation;
use crate::config::config_first_string;
use crate::config::spec_first_config_string;
use crate::keys::str_eq;

verus! {

/// The two style preferences the check can be configured with.
#[derive(Debug, Clone, Copy, PartialEq, Eq, Structural)]
pub enum Style {
    Fields,
    Getters,
}

impl Default for Style {
    fn default() -> (s: Self)
        ensures
            s == Style::Fields,
    {
        Style::Fields
    }
}

/// The style that a configuration's first option string selects: exactly
/// the text "getters" selects getters-preferred; anything else, including
/// absence, selects fields-preferred.
pub open spec fn spec_style_of(first: Option<Seq<char>>) -> Style {
    match first {
        Some(t) => if t == "getters"@ {
            Style::Getters
        } else {
            Style::Fields
        },
        None => Style::Fields,
    }
}

/// Resolves an already-extracted first option string to a style. Never
/// fails: an unrecognized or missing string selects the default.
pub fn resolve_style(first: Option<&str>) -> (s: Style)
    ensures
        s == spec_style_of(match first {
            Some(t) => Some(t@),
            None => None,
        }),
{
    match first {
        Some(t) => if str_eq(t, "getters") {
            Style::Getters
        } else {
            Style::Fields
        },
        None => Style::Fields,
    }
}

/// The configured check: one immutable style for the lifetime of a run.
#[derive(Debug, Clone)]
pub struct ClassLiteralPropertyStyle {
    style: Style,
}

impl Default for ClassLiteralPropertyStyle {
    fn default() -> (r: Self)
        ensures
            r.spec_style() == Style::Fields,
    {
        ClassLiteralPropertyStyle { style: Style::Fields }
    }
}

impl ClassLiteralPropertyStyle {
    /// The configured style.
    pub closed spec fn spec_style(&self) -> Style {
        self.style
    }

    /// The configured style.
    pub fn style(&self) -> (s: Style)
        ensures
            s == self.spec_style(),
    {
        self.style
    }

    /// The stable identifier under which the rule is configured and
    /// suppressed.
    pub fn name() -> (n: &'static str)
        ensures
            n@ == "class-literal-property-style"@,
    {
        "class-literal-property-style"
    }

    /// Builds a configured check from an arbitrary, possibly malformed
    /// configuration value; malformation silently selects the default
    /// style.
    pub fn from_configuration(value: serde_json::Value) -> (rule: Self)
        ensures
            rule.spec_style() == spec_style_of(spec_first_config_string(value)),
    {
        let first = config_first_string(&value);
        let style = match &first {
            Some(s) => resolve_style(Some(s.as_str())),
            None => resolve_style(None),
        };
        ClassLiteralPropertyStyle { style }
    }

    /// Visits one member: at most one violation per visit, exactly when the
    /// configured style flags the member among the siblings that the parent
    /// lookup reaches.
    pub fn run(&self, member: &ClassMember, enclosing: Option<&ClassBody>) -> (r: Option<Violation>)
        ensures
            run_post(self.spec_style(), *member, spec_siblings(enclosing), r),
    {
        match self.style {
            Style::Fields => check_fields_preferred(member, enclosing),
            Style::Getters => check_getters_preferred(member, enclosing),
        }
    }
}

} // verus!
