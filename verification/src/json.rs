//! JSON values, as far as the helpers look at them: whether two of them are
//! equal, and which boolean one of them holds.

use vstd::prelude::*;
use serde_json::Value;

verus! {

/// `serde_json::Value`, of which nothing is known here but what the items
/// below state.
#[verifier::external_type_specification]
#[verifier::external_body]
pub struct ExValue(serde_json::Value);

/// Whether `left == right` holds for two JSON values.
pub uninterp spec fn json_eq(left: Value, right: Value) -> bool;

/// The boolean that a JSON value holds, if it is a boolean.
pub uninterp spec fn json_bool(value: Value) -> Option<bool>;

/// Compares two values with `==`, the `PartialEq` of `serde_json::Value`.
/// Not proved: the result is taken to depend on the two values alone.
#[verifier::external_body]
pub(crate) fn values_equal(left: &Value, right: &Value) -> (equal: bool)
    ensures
        equal == json_eq(*left, *right),
{
    left == right
}

/// `serde_json::Value::as_bool`. Not proved: the result is taken to depend
/// on the value alone.
pub assume_specification[ Value::as_bool ](value: &Value) -> (held: Option<bool>)
    ensures
        held == json_bool(*value),
;

/// `serde_json::Value::clone`. Not proved: the copy is the same JSON value.
pub assume_specification[ <Value as Clone>::clone ](value: &Value) -> (copy: Value)
    ensures
        copy == *value,
;

/// Builds `serde_json::Value::Bool`. Not proved: `as_bool` gives the flag
/// back.
#[verifier::external_body]
pub(crate) fn bool_value(flag: bool) -> (value: Value)
    ensures
        json_bool(value) == Some(flag),
{
    Value::Bool(flag)
}

/// Whether some member of `args` equals `value`, each compared as
/// `member == value`.
pub open spec fn matches_any(value: Value, args: Seq<Value>) -> bool {
    exists|i: int| 0 <= i < args.len() && json_eq(#[trigger] args[i], value)
}

/// Compares the members of `args` with `value` in order, up to the first
/// that is equal.
pub fn any_equal(args: &[Value], value: &Value) -> (found: bool)
    ensures
        found == matches_any(*value, args@),
{
    let mut i: usize = 0;
    while i < args.len()
        invariant
            i <= args.len(),
            forall|j: int| 0 <= j < i ==> !json_eq(#[trigger] args@[j], *value),
        decreases args.len() - i,
    {
        if values_equal(&args[i], value) {
            return true;
        }
        i += 1;
    }
    false
}

} // verus!
