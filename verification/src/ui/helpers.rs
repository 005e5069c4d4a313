use vstd::prelude::*;
use vstd::std_specs::cmp::PartialEqSpec;

verus! {

/// `Some(value)` when `value` differs from `compare_value`, `None` when they are equal.
pub fn wrap_if_not_equals<T: PartialEq>(value: T, compare_value: &T) -> (r: Option<T>)
    ensures
        T::obeys_eq_spec() ==> r == (if compare_value.eq_spec(&value) {
            None
        } else {
            Some(value)
        }),
        r is Some ==> r == Some(value),
{
    if compare_value.ne(&value) {
        Some(value)
    } else {
        None
    }
}

} // verus!
