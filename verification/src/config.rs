//! Reading the user-supplied configuration value, which arrives as a JSON
//! value owned by the host.

use vstd::prelude::*;

verus! {

#[verifier::external_type_specification]
#[verifier::external_body]
pub struct ExValue(serde_json::Value);

/// What the check reads from a configuration value: for an array, one entry
/// per element, holding the element's text where that element is a string;
/// for any non-array value, the empty sequence.
pub uninterp spec fn config_strings(v: serde_json::Value) -> Seq<Option<Seq<char>>>;

/// The first entry, where there is one.
pub open spec fn spec_first_config_string(v: serde_json::Value) -> Option<Seq<char>> {
    if config_strings(v).len() > 0 {
        config_strings(v)[0]
    } else {
        None
    }
}

/// Relies on serde_json::Value::get (with an index: `Some` exactly on an
/// array holding an element there) and serde_json::Value::as_str (`Some` of
/// the text exactly on a string value).
#[verifier::external_body]
pub(crate) fn config_first_string(v: &serde_json::Value) -> (r: Option<String>)
    ensures
        match r {
            Some(s) => config_strings(*v).len() > 0 && config_strings(*v)[0] == Some(s@),
            None => config_strings(*v).len() == 0 || config_strings(*v)[0] is None,
        },
{
    v.get(0).and_then(serde_json::Value::as_str).map(str::to_string)
}

} // verus!
