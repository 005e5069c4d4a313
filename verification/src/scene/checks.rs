use vstd::prelude::*;

use crate::test::manager::{exit_for, TestExitCode, TestManager};
use crate::test::result::{outcome, TestError, TestErrorView, TestResult};
use crate::test::tree::{is_leaf, propagate, LeafTestNode};

verus! {

/// How late a timer may fire, in nanoseconds: 100 ms.
pub const MAX_DELAY_NANOS: u128 = 100_000_000;

/// The decimal digit `d` (below 10).
pub open spec fn digit_char(d: nat) -> char {
    "0123456789"@[d as int]
}

/// The decimal text of `n`, without leading zeros.
pub open spec fn decimal(n: nat) -> Seq<char>
    decreases n,
{
    if n < 10 {
        seq![digit_char(n)]
    } else {
        decimal(n / 10) + seq![digit_char(n % 10)]
    }
}

fn digit_str(d: u128) -> (r: &'static str)
    requires
        d < 10,
    ensures
        r@ == seq![digit_char(d as nat)],
{
    let digits = "0123456789";
    proof {
        reveal_strlit("0123456789");
    }
    let r = digits.substring_char(d as usize, (d + 1) as usize);
    assert(r@ =~= seq![digit_char(d as nat)]);
    r
}

/// The decimal text of `n`.
pub fn decimal_text(n: u128) -> (r: String)
    ensures
        r@ == decimal(n as nat),
    decreases n,
{
    let digit = digit_str(n % 10);
    if n < 10 {
        String::from_str(digit)
    } else {
        let mut s = decimal_text(n / 10);
        s.append(digit);
        s
    }
}

/// What the failed `not_visible` test reports.
pub open spec fn not_visible_failure() -> TestErrorView {
    TestErrorView::Assert {
        found: "true"@,
        expected: "false"@,
        error: Some("Main window should not be visible in headless mode"@),
    }
}

/// What the failed `no_draw` test reports.
pub open spec fn no_draw_failure() -> TestErrorView {
    TestErrorView::Assert {
        found: "reached"@,
        expected: "not reached"@,
        error: Some("Scene::draw() should not be called in headless mode"@),
    }
}

/// What a timer that fired too early reports: both times in nanoseconds.
pub open spec fn early_timer_failure(elapsed: nat, timeout: nat) -> TestErrorView {
    TestErrorView::Assert {
        found: decimal(elapsed),
        expected: decimal(timeout),
        error: Some("elapsed must be greater than timeout"@),
    }
}

/// What a timer that fired too late reports: the delay and the most allowed,
/// in nanoseconds.
pub open spec fn late_timer_failure(delay: nat) -> TestErrorView {
    TestErrorView::Assert {
        found: decimal(delay),
        expected: decimal(MAX_DELAY_NANOS as nat),
        error: Some("more timeout delay than expected"@),
    }
}

/// The headless test that the main window stays hidden: it passes exactly
/// when the window is not visible, and otherwise reports
/// [`not_visible_failure`].
pub fn test_not_visible(visible: bool) -> (r: TestResult)
    ensures
        r is Ok <==> !visible,
        r is Err ==> r->Err_0@ == not_visible_failure(),
{
    if visible {
        Err(
            TestError::AssertError {
                found: String::from_str("true"),
                expected: String::from_str("false"),
                error: Some(String::from_str("Main window should not be visible in headless mode")),
            },
        )
    } else {
        Ok(())
    }
}

/// The headless test that no frame is drawn: drawing one always fails it
/// with [`no_draw_failure`].
pub fn test_not_draw() -> (r: TestResult)
    ensures
        r is Err && r->Err_0@ == no_draw_failure(),
{
    Err(
        TestError::AssertError {
            found: String::from_str("reached"),
            expected: String::from_str("not reached"),
            error: Some(String::from_str("Scene::draw() should not be called in headless mode")),
        },
    )
}

/// A timeout-delay test: it passes exactly when the timer fired no sooner
/// than asked (`elapsed` is at least `timeout`) and at most
/// [`MAX_DELAY_NANOS`] later. Both times are in nanoseconds. A timer that
/// fired early reports [`early_timer_failure`]; one that fired late,
/// [`late_timer_failure`] of its delay.
pub fn timeout_delay_result(elapsed: u128, timeout: u128) -> (r: TestResult)
    ensures
        r is Ok <==> (timeout <= elapsed && elapsed - timeout <= MAX_DELAY_NANOS),
        elapsed < timeout ==> r is Err && r->Err_0@ == early_timer_failure(elapsed as nat, timeout as nat),
        timeout <= elapsed && elapsed - timeout > MAX_DELAY_NANOS ==> r is Err && r->Err_0@
            == late_timer_failure((elapsed - timeout) as nat),
{
    if elapsed < timeout {
        return Err(
            TestError::AssertError {
                found: decimal_text(elapsed),
                expected: decimal_text(timeout),
                error: Some(String::from_str("elapsed must be greater than timeout")),
            },
        );
    }
    let delay = elapsed - timeout;
    if delay > MAX_DELAY_NANOS {
        return Err(
            TestError::AssertError {
                found: decimal_text(delay),
                expected: decimal_text(MAX_DELAY_NANOS),
                error: Some(String::from_str("more timeout delay than expected")),
            },
        );
    }
    Ok(())
}

/// Performs [`crate::scene::main::DrawAction::FailNoDraw`]: test `leaf` of `m`
/// fails with [`no_draw_failure`], reported upwards as by
/// [`TestManager::update`]; gives the exit code asked for when that
/// completes the root.
pub fn report_no_draw(m: &mut TestManager, leaf: LeafTestNode) -> (code: Option<TestExitCode>)
    requires
        is_leaf(old(m).tree_view(), leaf.id() as int),
    ensures
        final(m).init_done() == old(m).init_done(),
        final(m).tree_view() == propagate(
            old(m).tree_view(),
            leaf.id() as int,
            Err::<(), TestErrorView>(no_draw_failure()),
        ).0,
        code == (match propagate(old(m).tree_view(), leaf.id() as int, Err::<(), TestErrorView>(no_draw_failure())).1 {
            Some(r) => if old(m).init_done() {
                Some(exit_for(r))
            } else {
                None
            },
            None => None,
        }),
{
    let failure = test_not_draw();
    assert(outcome(failure) == Err::<(), TestErrorView>(no_draw_failure()));
    m.update(leaf, failure)
}

/// The `no_draw` timeout fired: test `leaf` of `m` passes, reported upwards as
/// by [`TestManager::update`], unless it has a result already, in which case
/// nothing changes. Gives the exit code asked for when the report completes
/// the root.
pub fn report_no_draw_timeout(m: &mut TestManager, leaf: LeafTestNode) -> (code: Option<TestExitCode>)
    requires
        is_leaf(old(m).tree_view(), leaf.id() as int),
    ensures
        final(m).init_done() == old(m).init_done(),
        old(m).tree_view()[leaf.id() as int].result is Some ==> final(m).tree_view() == old(m).tree_view()
            && code is None,
        old(m).tree_view()[leaf.id() as int].result is None ==> {
            let (v, rr) = propagate(old(m).tree_view(), leaf.id() as int, Ok::<(), TestErrorView>(()));
            &&& final(m).tree_view() == v
            &&& code == (match rr {
                Some(r) => if old(m).init_done() {
                    Some(exit_for(r))
                } else {
                    None
                },
                None => None,
            })
        },
{
    if m.tree().leaf_node(leaf).finished() {
        return None;
    }
    m.update(leaf, Ok(()))
}

} // verus!
