use vstd::prelude::*;

verus! {

/// Daily interest on a positive debt: fifteen percent, rounded up.
pub open spec fn interest_on(debt: int) -> int {
    if debt > 0 {
        (debt * 15 + 99) / 100
    } else {
        0
    }
}

/// The debt after a day's interest.
pub open spec fn accrued(debt: int) -> int {
    debt + interest_on(debt)
}

/// Applies a day's interest: returns the new debt and the interest charged.
/// A debt of zero or less is left as it is.
pub fn accrue_interest(debt: i64) -> (r: (i64, i64))
    requires
        accrued(debt as int) <= i64::MAX,
    ensures
        r.0 == accrued(debt as int),
        r.1 == interest_on(debt as int),
{
    if debt > 0 {
        let interest = ((debt as i128 * 15 + 99) / 100) as i64;
        (debt + interest, interest)
    } else {
        (debt, 0)
    }
}

/// Interest never shrinks a debt, and a larger debt never ends the day
/// smaller than a lesser one.
pub proof fn accrual_is_monotonic(d1: int, d2: int)
    requires
        d1 <= d2,
    ensures
        accrued(d1) <= accrued(d2),
        accrued(d1) >= d1,
        interest_on(d1) <= interest_on(d2),
{
    if d1 > 0 {
        assert((d1 * 15 + 99) / 100 <= (d2 * 15 + 99) / 100) by (nonlinear_arith)
            requires
                0 < d1 <= d2,
        ;
    }
    if d2 > 0 {
        assert((d2 * 15 + 99) / 100 >= 0) by (nonlinear_arith)
            requires
                d2 > 0,
        ;
    }
}

} // verus!
