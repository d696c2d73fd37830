//! A balance-delta check.
//!
//! The recurring pattern in a contract test is "this call changed Alice's
//! balance by exactly N": read the balance, run the action, read it again,
//! compare the delta. [`assert_balance_change`] packages that up; it works
//! with any balance getter, given as a closure.

use vstd::prelude::*;

verus! {

/// Why [`assert_balance_change`] failed.
#[derive(Debug, Clone, Copy, PartialEq, Eq, Structural)]
pub enum BalanceChangeError {
    /// The balance changed by `actual` (from `before` to `after`), not by
    /// `expected`.
    Mismatch { expected: i128, actual: i128, before: i128, after: i128 },
    /// `after - before` does not fit in an `i128`.
    Overflow { before: i128, after: i128 },
}

/// What the check answers for the readings `before` and `after`: `Ok` when
/// the balance moved by exactly `expected_delta`, otherwise the mismatch with
/// both readings, or `Overflow` when `after - before` does not fit in an
/// `i128`.
pub open spec fn balance_change_outcome(before: i128, after: i128, expected_delta: i128) -> Result<
    (),
    BalanceChangeError,
> {
    if !(i128::MIN <= after - before <= i128::MAX) {
        Err(BalanceChangeError::Overflow { before, after })
    } else if after - before != expected_delta {
        Err(
            BalanceChangeError::Mismatch {
                expected: expected_delta,
                actual: (after - before) as i128,
                before,
                after,
            },
        )
    } else {
        Ok(())
    }
}

/// Compares two balance readings with the expected change `after - before`.
pub fn check_balance_change(before: i128, after: i128, expected_delta: i128) -> (r: Result<
    (),
    BalanceChangeError,
>)
    ensures
        r == balance_change_outcome(before, after, expected_delta),
{
    match after.checked_sub(before) {
        None => Err(BalanceChangeError::Overflow { before, after }),
        Some(actual) => {
            if actual != expected_delta {
                Err(BalanceChangeError::Mismatch { expected: expected_delta, actual, before, after })
            } else {
                Ok(())
            }
        },
    }
}

/// Runs `f` and checks that `get_balance(who)` changed by exactly
/// `expected_delta` (`after - before`). `expected_delta` may be negative for
/// an expected decrease.
///
/// `f` runs exactly once, between the two readings; `before` is what
/// `get_balance(who)` returned before it and `after` what it returned after,
/// and the outcome is [`balance_change_outcome`] of those two readings.
pub fn assert_balance_change<A, G: Fn(&A) -> i128, F: FnOnce()>(
    get_balance: G,
    who: &A,
    expected_delta: i128,
    f: F,
) -> (r: Result<(), BalanceChangeError>)
    requires
        forall|x: &A| get_balance.requires((x,)),
        f.requires(()),
    ensures
        f.ensures((), ()),
        exists|before: i128, after: i128|
            #![trigger get_balance.ensures((who,), before), get_balance.ensures((who,), after)]
            get_balance.ensures((who,), before) && get_balance.ensures((who,), after) && r
                == balance_change_outcome(before, after, expected_delta),
{
    let before = get_balance(who);
    f();
    let after = get_balance(who);
    check_balance_change(before, after, expected_delta)
}

/// Law: the check accepts exactly the readings whose difference
/// `after - before` is the expected change: in particular a change of the
/// opposite sign is refused, and a refusal reports both readings and the
/// change they show.
pub proof fn law_balance_change_accepts_exactly_the_delta(before: i128, after: i128, expected_delta: i128)
    ensures
        balance_change_outcome(before, after, expected_delta) is Ok <==> after - before
            == expected_delta,
        balance_change_outcome(before, after, expected_delta) matches Err(
            BalanceChangeError::Mismatch { expected, actual, before: b, after: a },
        ) ==> expected == expected_delta && b == before && a == after && actual == after - before
            && actual != expected_delta,
        balance_change_outcome(before, after, expected_delta) matches Err(
            BalanceChangeError::Overflow { before: b, after: a },
        ) ==> b == before && a == after && !(i128::MIN <= after - before <= i128::MAX),
{
}

} // verus!
