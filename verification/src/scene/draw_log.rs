use vstd::prelude::*;

use crate::test::assertions::{assert_text_equals, debug_str_text};
use crate::test::result::{TestErrorView, TestResult};
use crate::utils::trim::{trim_text, trimmed};

verus! {

/// Checks the log that a stack of test widgets wrote while drawing: passes when
/// the log and the expected log agree once leading and trailing whitespace is
/// removed from both, and fails with an assertion error that shows both
/// trimmed logs otherwise.
pub fn test_body(log: &str, expected_log: &str) -> (r: TestResult)
    ensures
        r is Ok <==> trimmed(log@) == trimmed(expected_log@),
        r is Err ==> r->Err_0@ == (TestErrorView::Assert {
            found: debug_str_text(trimmed(log@)),
            expected: debug_str_text(trimmed(expected_log@)),
            error: None,
        }),
{
    let log = trim_text(log);
    let expected_log = trim_text(expected_log);
    assert_text_equals(log, expected_log)
}

} // verus!
