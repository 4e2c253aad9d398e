//! The mutation scan: finds, anywhere inside a method body, an assignment
//! whose left side is a member access on `this` naming a given property.
//! The scan descends into nested function bodies, but never into a nested
//! class expression, whose members belong to that class alone.

use vstd::prelude::*;

use crate::ast::AssignTarget;
use crate::ast::Expr;
use crate::ast::Stmt;
use crate::keys::str_eq;

verus! {

/// The property name that an assignment target on `this` denotes: the
/// identifier after a dot, or the bare identifier or string literal between
/// brackets. Any other target denotes no property.
pub open spec fn spec_resolve_target(t: AssignTarget) -> Option<Seq<char>> {
    match t {
        AssignTarget::ThisDot { name } => Some(name@),
        AssignTarget::ThisBracket { index } => match *index {
            Expr::Ident { name } => Some(name@),
            Expr::StringLit { value } => Some(value@),
            _ => None,
        },
        AssignTarget::Other { .. } => None,
    }
}

/// Whether an expression contains, at any depth reachable without entering
/// a nested class expression, an assignment to `this.<name>`.
pub open spec fn expr_assigns(e: Expr, name: Seq<char>) -> bool
    decreases e,
{
    match e {
        Expr::StringLit { .. } => false,
        Expr::Atom { .. } => false,
        Expr::Template { .. } => false,
        Expr::TaggedTemplate { tag, .. } => expr_assigns(*tag, name),
        Expr::Ident { .. } => false,
        Expr::Array { elements } => exists|i: int|
            0 <= i < elements@.len() && expr_assigns(#[trigger] elements@[i], name),
        Expr::Object { values } => exists|i: int|
            0 <= i < values@.len() && expr_assigns(#[trigger] values@[i], name),
        Expr::Function { body } => exists|i: int|
            0 <= i < body@.len() && stmt_assigns(#[trigger] body@[i], name),
        Expr::ClassExpr => false,
        Expr::Call { callee, arguments } => expr_assigns(*callee, name) || exists|i: int|
            0 <= i < arguments@.len() && expr_assigns(#[trigger] arguments@[i], name),
        Expr::Assign { target, value } => {
            ||| spec_resolve_target(target) == Some(name)
            ||| target_assigns(target, name)
            ||| expr_assigns(*value, name)
        },
        Expr::Other { children } => exists|i: int|
            0 <= i < children@.len() && expr_assigns(#[trigger] children@[i], name),
    }
}

/// Whether an assignment target itself contains such an assignment, nested
/// in a bracket index or in some other target form.
pub open spec fn target_assigns(t: AssignTarget, name: Seq<char>) -> bool
    decreases t,
{
    match t {
        AssignTarget::ThisDot { .. } => false,
        AssignTarget::ThisBracket { index } => expr_assigns(*index, name),
        AssignTarget::Other { children } => exists|i: int|
            0 <= i < children@.len() && expr_assigns(#[trigger] children@[i], name),
    }
}

/// Whether a statement contains such an assignment.
pub open spec fn stmt_assigns(s: Stmt, name: Seq<char>) -> bool
    decreases s,
{
    match s {
        Stmt::Return { argument } => match argument {
            Some(e) => expr_assigns(e, name),
            None => false,
        },
        Stmt::Expr { expr } => expr_assigns(expr, name),
        Stmt::Block { body } => exists|i: int|
            0 <= i < body@.len() && stmt_assigns(#[trigger] body@[i], name),
        Stmt::If { test, then_branch, else_branch } => {
            ||| expr_assigns(test, name)
            ||| exists|i: int| 0 <= i < then_branch@.len() && stmt_assigns(#[trigger] then_branch@[i], name)
            ||| exists|i: int| 0 <= i < else_branch@.len() && stmt_assigns(#[trigger] else_branch@[i], name)
        },
        Stmt::Decl { init } => match init {
            Some(e) => expr_assigns(e, name),
            None => false,
        },
        Stmt::FuncDecl { body } => exists|i: int|
            0 <= i < body@.len() && stmt_assigns(#[trigger] body@[i], name),
        Stmt::Empty => false,
    }
}

/// Whether a whole statement list contains such an assignment.
pub open spec fn stmts_assign(body: Seq<Stmt>, name: Seq<char>) -> bool {
    exists|i: int| 0 <= i < body.len() && stmt_assigns(#[trigger] body[i], name)
}

/// Resolves an assignment target to the property name it denotes on `this`.
pub fn resolve_target<'a>(t: &'a AssignTarget) -> (r: Option<&'a str>)
    ensures
        match r {
            Some(s) => spec_resolve_target(*t) == Some(s@),
            None => spec_resolve_target(*t) is None,
        },
{
    match t {
        AssignTarget::ThisDot { name } => Some(name.as_str()),
        AssignTarget::ThisBracket { index } => match &**index {
            Expr::Ident { name } => Some(name.as_str()),
            Expr::StringLit { value } => Some(value.as_str()),
            _ => None,
        },
        AssignTarget::Other { .. } => None,
    }
}

/// Searches an expression for an assignment to `this.<name>`.
pub fn expr_assigns_to(e: &Expr, name: &str) -> (r: bool)
    ensures
        r == expr_assigns(*e, name@),
    decreases *e,
{
    match e {
        Expr::StringLit { .. } => false,
        Expr::Atom { .. } => false,
        Expr::Template { .. } => false,
        Expr::TaggedTemplate { tag, .. } => expr_assigns_to(tag, name),
        Expr::Ident { .. } => false,
        Expr::Array { elements } => exprs_any_assign(elements, name),
        Expr::Object { values } => exprs_any_assign(values, name),
        Expr::Function { body } => stmts_any_assign(body, name),
        Expr::ClassExpr => false,
        Expr::Call { callee, arguments } => {
            expr_assigns_to(callee, name) || exprs_any_assign(arguments, name)
        },
        Expr::Assign { target, value } => {
            let named = match resolve_target(target) {
                Some(t) => str_eq(t, name),
                None => false,
            };
            named || target_assigns_to(target, name) || expr_assigns_to(value, name)
        },
        Expr::Other { children } => exprs_any_assign(children, name),
    }
}

/// Searches an assignment target's nested expressions.
pub fn target_assigns_to(t: &AssignTarget, name: &str) -> (r: bool)
    ensures
        r == target_assigns(*t, name@),
    decreases *t,
{
    match t {
        AssignTarget::ThisDot { .. } => false,
        AssignTarget::ThisBracket { index } => expr_assigns_to(index, name),
        AssignTarget::Other { children } => exprs_any_assign(children, name),
    }
}

/// Searches a statement.
pub fn stmt_assigns_to(s: &Stmt, name: &str) -> (r: bool)
    ensures
        r == stmt_assigns(*s, name@),
    decreases *s,
{
    match s {
        Stmt::Return { argument } => match argument {
            Some(e) => expr_assigns_to(e, name),
            None => false,
        },
        Stmt::Expr { expr } => expr_assigns_to(expr, name),
        Stmt::Block { body } => stmts_any_assign(body, name),
        Stmt::If { test, then_branch, else_branch } => {
            expr_assigns_to(test, name) || stmts_any_assign(then_branch, name)
                || stmts_any_assign(else_branch, name)
        },
        Stmt::Decl { init } => match init {
            Some(e) => expr_assigns_to(e, name),
            None => false,
        },
        Stmt::FuncDecl { body } => stmts_any_assign(body, name),
        Stmt::Empty => false,
    }
}

/// Searches every expression of a list.
pub fn exprs_any_assign(es: &Vec<Expr>, name: &str) -> (r: bool)
    ensures
        r == exists|i: int| 0 <= i < es@.len() && expr_assigns(#[trigger] es@[i], name@),
    decreases es@,
{
    let mut i: usize = 0;
    while i < es.len()
        invariant
            i <= es@.len(),
            forall|j: int| 0 <= j < i ==> !expr_assigns(#[trigger] es@[j], name@),
        decreases es@.len() - i,
    {
        if expr_assigns_to(&es[i], name) {
            return true;
        }
        i += 1;
    }
    false
}

/// Searches every statement of a list.
pub fn stmts_any_assign(ss: &Vec<Stmt>, name: &str) -> (r: bool)
    ensures
        r == stmts_assign(ss@, name@),
    decreases ss@,
{
    let mut i: usize = 0;
    while i < ss.len()
        invariant
            i <= ss@.len(),
            forall|j: int| 0 <= j < i ==> !stmt_assigns(#[trigger] ss@[j], name@),
        decreases ss@.len() - i,
    {
        if stmt_assigns_to(&ss[i], name) {
            return true;
        }
        i += 1;
    }
    false
}

} // verus!
