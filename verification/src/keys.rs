//! The property key normalizer: resolves a member's key to a comparable
//! canonical name, or to nothing when the key is unresolvable.

use vstd::prelude::*;

use crate::ast::Expr;
use crate::ast::PropertyKey;

verus! {

/// The canonical name of a member key. Identifier and string-literal keys
/// resolve to their text; a computed key resolves only when its expression
/// is a bare identifier reference. An unresolvable key never names the same
/// property as anything, not even another unresolvable key.
pub open spec fn spec_resolve_key(k: PropertyKey) -> Option<Seq<char>> {
    match k {
        PropertyKey::Identifier { name } => Some(name@),
        PropertyKey::StringLiteral { name } => Some(name@),
        PropertyKey::Computed { expr } => match *expr {
            Expr::Ident { name } => Some(name@),
            _ => None,
        },
    }
}

/// Two keys denote the same property exactly when both resolve and resolve
/// to equal names.
pub open spec fn spec_same_property(a: PropertyKey, b: PropertyKey) -> bool {
    spec_resolve_key(a) is Some && spec_resolve_key(a) == spec_resolve_key(b)
}

/// Character-for-character equality of two string slices.
pub fn str_eq(a: &str, b: &str) -> (r: bool)
    ensures
        r <==> a@ == b@,
{
    let n = a.unicode_len();
    if n != b.unicode_len() {
        return false;
    }
    let mut i: usize = 0;
    while i < n
        invariant
            n == a@.len(),
            n == b@.len(),
            i <= n,
            forall|j: int| 0 <= j < i ==> a@[j] == b@[j],
        decreases n - i,
    {
        if a.get_char(i) != b.get_char(i) {
            return false;
        }
        i += 1;
    }
    proof {
        assert(a@ =~= b@);
    }
    true
}

/// Resolves a key to its canonical name.
pub fn resolve<'a>(key: &'a PropertyKey) -> (r: Option<&'a str>)
    ensures
        match r {
            Some(s) => spec_resolve_key(*key) == Some(s@),
            None => spec_resolve_key(*key) is None,
        },
{
    match key {
        PropertyKey::Identifier { name } => Some(name.as_str()),
        PropertyKey::StringLiteral { name } => Some(name.as_str()),
        PropertyKey::Computed { expr } => match &**expr {
            Expr::Ident { name } => Some(name.as_str()),
            _ => None,
        },
    }
}

/// Whether two keys denote the same property.
pub fn same_property(a: &PropertyKey, b: &PropertyKey) -> (r: bool)
    ensures
        r == spec_same_property(*a, *b),
{
    match (resolve(a), resolve(b)) {
        (Some(x), Some(y)) => str_eq(x, y),
        _ => false,
    }
}

} // verus!
