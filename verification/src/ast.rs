//! The syntax-tree model that the check reads: expressions, statements,
//! property keys and class members, reduced to exactly the structure the
//! decision procedure inspects.

use vstd::prelude::*;

verus! {

/// Source region of a syntax node, as byte offsets into the source text.
#[derive(Debug, Clone, Copy, PartialEq, Eq, Structural)]
pub struct Span {
    pub start: u32,
    pub end: u32,
}

/// Atomic literals other than string literals; their value never matters to
/// the check, only that they are atomic.
#[derive(Debug, Clone, Copy, PartialEq, Eq, Structural)]
pub enum AtomLit {
    Number,
    Boolean,
    Null,
    BigInt,
    Regex,
}

/// An access modifier on a class member.
#[derive(Debug, Clone, Copy, PartialEq, Eq, Structural)]
pub enum Accessibility {
    Public,
    Private,
    Protected,
}

/// An expression, carrying only what the check reads: enough to classify
/// literals, to resolve bracketed names, and to find assignments nested
/// anywhere inside a method body.
#[derive(Debug, PartialEq, Eq)]
pub enum Expr {
    /// A string literal with its text (the text also names a property when
    /// the literal stands between brackets).
    StringLit { value: String },
    /// Any other atomic literal: number, boolean, null, bigint or regex.
    Atom { kind: AtomLit },
    /// An untagged template literal with the given number of `${}`
    /// substitutions.
    Template { substitutions: usize },
    /// A tagged template: the tag expression and the number of `${}`
    /// substitutions of the underlying template.
    TaggedTemplate { tag: Box<Expr>, substitutions: usize },
    /// A bare identifier reference.
    Ident { name: String },
    /// An array literal.
    Array { elements: Vec<Expr> },
    /// An object literal; the property value expressions.
    Object { values: Vec<Expr> },
    /// A function or arrow expression with its body.
    Function { body: Vec<Stmt> },
    /// A class expression. Its members belong to that class alone and are
    /// never inspected on behalf of an enclosing class.
    ClassExpr,
    /// A call or `new` expression.
    Call { callee: Box<Expr>, arguments: Vec<Expr> },
    /// An assignment with its target and assigned value.
    Assign { target: AssignTarget, value: Box<Expr> },
    /// Any other expression kind, with the subexpressions it contains.
    Other { children: Vec<Expr> },
}

/// The left side of an assignment.
#[derive(Debug, PartialEq, Eq)]
pub enum AssignTarget {
    /// `this.<name>`
    ThisDot { name: String },
    /// `this[<index>]`
    ThisBracket { index: Box<Expr> },
    /// Any other target, with the subexpressions it contains.
    Other { children: Vec<Expr> },
}

/// A statement. Statements that only wrap nested code (loops, `try`, and the
/// like) are represented as `Block`.
#[derive(Debug, PartialEq, Eq)]
pub enum Stmt {
    /// `return;` or `return <expr>;`
    Return { argument: Option<Expr> },
    /// An expression statement.
    Expr { expr: Expr },
    /// A braced block, or any other statement that only wraps nested
    /// statements.
    Block { body: Vec<Stmt> },
    /// An `if` statement with optional `else` material in `else_branch`.
    If { test: Expr, then_branch: Vec<Stmt>, else_branch: Vec<Stmt> },
    /// A variable declaration with its optional initializer.
    Decl { init: Option<Expr> },
    /// A function declaration with its body.
    FuncDecl { body: Vec<Stmt> },
    /// An empty statement.
    Empty,
}

/// The name position of a class member.
#[derive(Debug, PartialEq, Eq)]
pub enum PropertyKey {
    /// A plain identifier key, `p1`.
    Identifier { name: String },
    /// A string-literal key, `'p1'`.
    StringLiteral { name: String },
    /// A computed key, `[expr]`.
    Computed { expr: Box<Expr> },
}

/// Whether an accessor reads or writes its property.
#[derive(Debug, Clone, Copy, PartialEq, Eq, Structural)]
pub enum AccessorKind {
    Getter,
    Setter,
}

/// One member of a class body.
#[derive(Debug, PartialEq, Eq)]
pub enum ClassMember {
    /// A property declaration.
    Field {
        key: PropertyKey,
        is_readonly: bool,
        is_declare: bool,
        is_static: bool,
        accessibility: Option<Accessibility>,
        initializer: Option<Expr>,
        span: Span,
    },
    /// A get or set accessor. An ambient or abstract accessor has no body.
    Accessor {
        kind: AccessorKind,
        key: PropertyKey,
        is_static: bool,
        accessibility: Option<Accessibility>,
        body: Option<Vec<Stmt>>,
        span: Span,
    },
    /// A constructor or ordinary method.
    Method {
        is_constructor: bool,
        is_static: bool,
        accessibility: Option<Accessibility>,
        body: Option<Vec<Stmt>>,
        span: Span,
    },
}

/// The ordered members of one class.
#[derive(Debug, PartialEq, Eq)]
pub struct ClassBody {
    pub members: Vec<ClassMember>,
}

/// The modifier text of a method declaration, as it would be printed in
/// front of a rewritten member.
pub open spec fn spec_modifier_text(accessibility: Option<Accessibility>, is_static: bool) -> Seq<char> {
    match (accessibility, is_static) {
        (None, false) => ""@,
        (None, true) => " static"@,
        (Some(Accessibility::Public), false) => "public"@,
        (Some(Accessibility::Public), true) => "public static"@,
        (Some(Accessibility::Private), false) => "private"@,
        (Some(Accessibility::Private), true) => "private static"@,
        (Some(Accessibility::Protected), false) => "protected"@,
        (Some(Accessibility::Protected), true) => "protected static"@,
    }
}

/// The access and static modifiers of a method definition, joined as one
/// string.
pub fn get_method_definition_modifiers(accessibility: Option<Accessibility>, is_static: bool) -> (r: &'static str)
    ensures
        r@ == spec_modifier_text(accessibility, is_static),
{
    match (accessibility, is_static) {
        (None, false) => "",
        (None, true) => " static",
        (Some(Accessibility::Public), false) => "public",
        (Some(Accessibility::Public), true) => "public static",
        (Some(Accessibility::Private), false) => "private",
        (Some(Accessibility::Private), true) => "private static",
        (Some(Accessibility::Protected), false) => "protected",
        (Some(Accessibility::Protected), true) => "protected static",
    }
}

} // verus!
