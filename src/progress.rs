use vstd::prelude::*;

verus! {

/// `100 * done / total`, rounded to the nearest integer, halves upward.
pub open spec fn percent_of(done: nat, total: nat) -> nat
    recommends
        total > 0,
{
    (200 * done + total) / (2 * total)
}

/// Percentage of a sensor's first-bounce samples that are done, rounded to
/// the nearest whole percent.
pub fn progress_percent(done: u64, total: u64) -> (r: u64)
    requires
        total > 0,
        done <= total,
    ensures
        r == percent_of(done as nat, total as nat),
        r <= 100,
{
    let num: u128 = 200 * (done as u128) + (total as u128);
    let den: u128 = 2 * (total as u128);
    let q: u128 = num / den;
    assert(q <= 100) by (nonlinear_arith)
        requires
            q == num / den,
            num == 200 * done + total,
            den == 2 * total,
            total > 0,
            done <= total,
    {
        assert(num < 101 * den);
    }
    q as u64
}

} // verus!
