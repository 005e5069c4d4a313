use vstd::prelude::*;

use super::result::{TestError, TestErrorView, TestResult};
use vstd::std_specs::cmp::PartialEqSpec;
use crate::utils::text_order::text_equals_exec;

verus! {

/// `{:?}` applied to `value`.
///
/// Calls `format!("{:?}", ..)`, that is `core::fmt::Debug::fmt` of `T`; nothing is
/// claimed of the text, which depends on how `T` implements `Debug`.
#[verifier::external_body]
fn debug_text<T: core::fmt::Debug>(value: &T) -> String {
    format!("{:?}", value)
}

/// Passes when `found` equals `expected`; otherwise fails with an
/// [`TestError::AssertError`] that holds both values printed with `{:?}` and no
/// further message.
pub fn assert_equals<T: PartialEq + core::fmt::Debug>(found: &T, expected: &T) -> (r: TestResult)
    ensures
        T::obeys_eq_spec() ==> (r is Ok <==> found.eq_spec(expected)),
        r is Err ==> (r->Err_0 is AssertError && r->Err_0->error is None),
{
    if !found.eq(expected) {
        Err(TestError::AssertError { found: debug_text(found), expected: debug_text(expected), error: None })
    } else {
        Ok(())
    }
}

/// The text that `{:?}` prints for a string slice holding `s`.
pub uninterp spec fn debug_str_text(s: Seq<char>) -> Seq<char>;

/// `format!("{:?}", s)` for a string slice, that is `<str as Debug>::fmt`: the
/// text in double quotes with special characters escaped. The result is named
/// [`debug_str_text`]; the escaping rules are not stated.
#[verifier::external_body]
fn debug_str(s: &str) -> (r: String)
    ensures
        r@ == debug_str_text(s@),
{
    format!("{:?}", s)
}

/// [`assert_equals`] for texts: passes when `found` and `expected` hold the same
/// characters; otherwise fails with an [`TestError::AssertError`] that holds both
/// texts printed with `{:?}` and no further message.
pub fn assert_text_equals(found: &str, expected: &str) -> (r: TestResult)
    ensures
        r is Ok <==> found@ == expected@,
        r is Err ==> r->Err_0@ == (TestErrorView::Assert {
            found: debug_str_text(found@),
            expected: debug_str_text(expected@),
            error: None,
        }),
{
    if !text_equals_exec(found, expected) {
        Err(TestError::AssertError { found: debug_str(found), expected: debug_str(expected), error: None })
    } else {
        Ok(())
    }
}

} // verus!
