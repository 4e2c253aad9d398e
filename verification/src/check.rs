//! The two checkers and the diagnostic emitter: fields-preferred flags
//! trivial literal-returning getters, getters-preferred flags readonly
//! literal-initialized fields, and each suppresses its exception.

use vstd::prelude::*;

use crate::ast::AccessorKind;
use crate::ast::ClassBody;
use crate::ast::ClassMember;
use crate::ast::PropertyKey;
use crate::ast::Span;
use crate::ast::Stmt;
use crate::classify::get_is_supported_literal;
use crate::classify::is_supported_literal;
use crate::keys::resolve;
use crate::keys::same_property;
use crate::keys::spec_resolve_key;
use crate::keys::spec_same_property;
use crate::rule::Style;
use crate::scan::stmts_any_assign;
use crate::scan::stmts_assign;

verus! {

broadcast use vstd::string::to_string_from_display_ensures_for_str;

/// A reportable violation record, handed to the host's diagnostic sink.
#[derive(Debug, Clone, PartialEq, Eq)]
pub struct Violation {
    pub span: Span,
    pub style: Style,
    pub message: String,
}

/// The message that a violation under the given style carries.
pub open spec fn spec_message(style: Style) -> Seq<char> {
    match style {
        Style::Fields => "Literals should be exposed using readonly fields."@,
        Style::Getters => "Literals should be exposed using getters."@,
    }
}

/// Builds the violation record for a trivial literal-returning getter.
pub fn prefer_field_style_diagnostic(span: Span) -> (v: Violation)
    ensures
        v.span == span,
        v.style == Style::Fields,
        v.message@ == spec_message(Style::Fields),
{
    Violation {
        span,
        style: Style::Fields,
        message: "Literals should be exposed using readonly fields.".to_string(),
    }
}

/// Builds the violation record for a readonly literal-initialized field.
pub fn prefer_getter_style_diagnostic(span: Span) -> (v: Violation)
    ensures
        v.span == span,
        v.style == Style::Getters,
        v.message@ == spec_message(Style::Getters),
{
    Violation {
        span,
        style: Style::Getters,
        message: "Literals should be exposed using getters.".to_string(),
    }
}

/// The span of a member's whole declaration.
pub open spec fn spec_member_span(m: ClassMember) -> Span {
    match m {
        ClassMember::Field { span, .. } => span,
        ClassMember::Accessor { span, .. } => span,
        ClassMember::Method { span, .. } => span,
    }
}

/// Whether a sibling is a set accessor for the same property as `key`.
pub open spec fn spec_is_matching_setter(m: ClassMember, key: PropertyKey) -> bool {
    match m {
        ClassMember::Accessor { kind: AccessorKind::Setter, key: skey, .. } =>
            spec_same_property(key, skey),
        _ => false,
    }
}

/// Whether any sibling is a set accessor for the same property as `key`.
pub open spec fn spec_has_matching_setter(siblings: Seq<ClassMember>, key: PropertyKey) -> bool {
    exists|i: int| 0 <= i < siblings.len() && spec_is_matching_setter(#[trigger] siblings[i], key)
}

/// Fields-preferred style flags a get accessor exactly when its body is one
/// bare `return` of a supported literal and no sibling set accessor pairs
/// with it.
pub open spec fn spec_fields_violation(m: ClassMember, siblings: Seq<ClassMember>) -> bool {
    match m {
        ClassMember::Accessor { kind: AccessorKind::Getter, key, body: Some(stmts), .. } => {
            &&& stmts@.len() == 1
            &&& match stmts@[0] {
                Stmt::Return { argument: Some(arg) } => is_supported_literal(arg),
                _ => false,
            }
            &&& !spec_has_matching_setter(siblings, key)
        },
        _ => false,
    }
}

/// Whether a member is a constructor or instance method whose body assigns
/// to `this.<name>` somewhere.
pub open spec fn spec_member_assigns(m: ClassMember, name: Seq<char>) -> bool {
    match m {
        ClassMember::Method { is_constructor, is_static, body: Some(b), .. } =>
            (is_constructor || !is_static) && stmts_assign(b@, name),
        _ => false,
    }
}

/// Whether any constructor or instance method of the class assigns to
/// `this.<name>`.
pub open spec fn spec_class_assigns(members: Seq<ClassMember>, name: Seq<char>) -> bool {
    exists|i: int| 0 <= i < members.len() && spec_member_assigns(#[trigger] members[i], name)
}

/// Getters-preferred style flags a field exactly when it is readonly, not
/// ambient, initialized with a supported literal, and no constructor or
/// instance method assigns to the same property. An unresolvable field name
/// is never assigned to, since an unresolvable name equals nothing.
pub open spec fn spec_getters_violation(m: ClassMember, siblings: Seq<ClassMember>) -> bool {
    match m {
        ClassMember::Field { key, is_readonly, is_declare, initializer: Some(init), .. } => {
            &&& is_readonly
            &&& !is_declare
            &&& is_supported_literal(init)
            &&& match spec_resolve_key(key) {
                Some(name) => !spec_class_assigns(siblings, name),
                None => true,
            }
        },
        _ => false,
    }
}

/// What the configured style flags on one member.
pub open spec fn spec_violates(style: Style, m: ClassMember, siblings: Seq<ClassMember>) -> bool {
    match style {
        Style::Fields => spec_fields_violation(m, siblings),
        Style::Getters => spec_getters_violation(m, siblings),
    }
}

/// The members visible through the parent lookup; a missing parent link
/// means no sibling is found.
pub open spec fn spec_siblings(enclosing: Option<&ClassBody>) -> Seq<ClassMember> {
    match enclosing {
        Some(cb) => cb.members@,
        None => Seq::empty(),
    }
}

/// The contract of one visit: a violation is returned exactly when the
/// configured style flags the member, and it carries the member's span, the
/// style, and the style's message.
pub open spec fn run_post(style: Style, m: ClassMember, siblings: Seq<ClassMember>, r: Option<Violation>) -> bool {
    match r {
        Some(v) => {
            &&& spec_violates(style, m, siblings)
            &&& v.span == spec_member_span(m)
            &&& v.style == style
            &&& v.message@ == spec_message(style)
        },
        None => !spec_violates(style, m, siblings),
    }
}

/// The fields-preferred checker, applied to one member visit.
#[verifier::loop_isolation(false)]
pub fn check_fields_preferred(member: &ClassMember, enclosing: Option<&ClassBody>) -> (r: Option<Violation>)
    ensures
        run_post(Style::Fields, *member, spec_siblings(enclosing), r),
{
    match member {
        ClassMember::Accessor { kind: AccessorKind::Getter, key, body: Some(stmts), span, .. } => {
            if stmts.len() != 1 {
                return None;
            }
            let supported = match &stmts[0] {
                Stmt::Return { argument: Some(arg) } => get_is_supported_literal(arg),
                _ => false,
            };
            if !supported {
                return None;
            }
            match enclosing {
                Some(cb) => {
                    let mut i: usize = 0;
                    while i < cb.members.len()
                        invariant
                            spec_siblings(enclosing) == cb.members@,
                            i <= cb.members@.len(),
                            forall|j: int| 0 <= j < i ==> !spec_is_matching_setter(#[trigger] cb.members@[j], *key),
                        decreases cb.members@.len() - i,
                    {
                        let is_match = match &cb.members[i] {
                            ClassMember::Accessor { kind: AccessorKind::Setter, key: skey, .. } =>
                                same_property(key, skey),
                            _ => false,
                        };
                        if is_match {
                            proof {
                                assert(spec_is_matching_setter(cb.members@[i as int], *key));
                                assert(spec_has_matching_setter(cb.members@, *key));
                            }
                            return None;
                        }
                        i += 1;
                    }
                },
                None => {},
            }
            Some(prefer_field_style_diagnostic(*span))
        },
        _ => None,
    }
}

/// The getters-preferred checker, applied to one member visit.
#[verifier::loop_isolation(false)]
pub fn check_getters_preferred(member: &ClassMember, enclosing: Option<&ClassBody>) -> (r: Option<Violation>)
    ensures
        run_post(Style::Getters, *member, spec_siblings(enclosing), r),
{
    match member {
        ClassMember::Field { key, is_readonly, is_declare, initializer: Some(init), span, .. } => {
            if !*is_readonly || *is_declare {
                return None;
            }
            if !get_is_supported_literal(init) {
                return None;
            }
            match resolve(key) {
                Some(name) => {
                    match enclosing {
                        Some(cb) => {
                            let mut i: usize = 0;
                            while i < cb.members.len()
                                invariant
                                    spec_siblings(enclosing) == cb.members@,
                                    i <= cb.members@.len(),
                                    forall|j: int| 0 <= j < i ==> !spec_member_assigns(#[trigger] cb.members@[j], name@),
                                decreases cb.members@.len() - i,
                            {
                                let assigns = match &cb.members[i] {
                                    ClassMember::Method { is_constructor, is_static, body: Some(b), .. } => {
                                        if *is_constructor || !*is_static {
                                            stmts_any_assign(b, name)
                                        } else {
                                            false
                                        }
                                    },
                                    _ => false,
                                };
                                if assigns {
                                    proof {
                                        assert(spec_member_assigns(cb.members@[i as int], name@));
                                        assert(spec_class_assigns(cb.members@, name@));
                                    }
                                    return None;
                                }
                                i += 1;
                            }
                        },
                        None => {},
                    }
                    Some(prefer_getter_style_diagnostic(*span))
                },
                None => Some(prefer_getter_style_diagnostic(*span)),
            }
        },
        _ => None,
    }
}

/// A get accessor whose body holds more than one statement, or whose first
/// statement is not a bare `return` of an expression, is never flagged
/// under fields-preferred style.
pub proof fn lemma_fields_ignores_complex_getter(m: ClassMember, siblings: Seq<ClassMember>)
    requires
        match m {
            ClassMember::Accessor { kind: AccessorKind::Getter, body: Some(stmts), .. } =>
                stmts@.len() > 1 || (stmts@.len() > 0 && !(stmts@[0] matches Stmt::Return {
                    argument: Some(_),
                })),
            _ => false,
        },
    ensures
        !spec_violates(Style::Fields, m, siblings),
{
}

/// A getter that participates in a get/set pair for the same property is
/// never flagged under fields-preferred style, whatever its body returns.
pub proof fn lemma_pairing_suppresses(m: ClassMember, siblings: Seq<ClassMember>, i: int)
    requires
        0 <= i < siblings.len(),
        match m {
            ClassMember::Accessor { kind: AccessorKind::Getter, key, .. } =>
                spec_is_matching_setter(siblings[i], key),
            _ => false,
        },
    ensures
        !spec_violates(Style::Fields, m, siblings),
{
    match m {
        ClassMember::Accessor { kind: AccessorKind::Getter, key, .. } => {
            assert(spec_has_matching_setter(siblings, key));
        },
        _ => {},
    }
}

/// A readonly field initialized with an array or object literal is never
/// flagged under getters-preferred style: a composite literal is not a
/// supported literal.
pub proof fn lemma_getters_ignores_composite_initializer(m: ClassMember, siblings: Seq<ClassMember>)
    requires
        match m {
            ClassMember::Field { initializer: Some(init), .. } =>
                init matches crate::ast::Expr::Array { .. } || init matches crate::ast::Expr::Object { .. },
            _ => false,
        },
    ensures
        !spec_violates(Style::Getters, m, siblings),
{
}

/// Whether two visit results report the same thing: both nothing, or
/// violations with equal span, style and message.
pub open spec fn spec_violation_equiv(a: Option<Violation>, b: Option<Violation>) -> bool {
    match (a, b) {
        (Some(x), Some(y)) => x.span == y.span && x.style == y.style && x.message@ == y.message@,
        (None, None) => true,
        _ => false,
    }
}

/// Two visits of the same member under the same style and the same class
/// report the same thing: the check is a pure function of its input, so
/// running it twice yields an identical set of violations.
pub proof fn lemma_run_deterministic(
    style: Style,
    m: ClassMember,
    siblings: Seq<ClassMember>,
    r1: Option<Violation>,
    r2: Option<Violation>,
)
    requires
        run_post(style, m, siblings, r1),
        run_post(style, m, siblings, r2),
    ensures
        spec_violation_equiv(r1, r2),
{
}

} // verus!
