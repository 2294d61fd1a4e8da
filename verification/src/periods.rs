//! Counting the whole periods that fit in a span of time.

use vstd::prelude::*;
use vstd::arithmetic::div_mod::{
    lemma_div_is_ordered, lemma_div_multiples_vanish, lemma_div_pos_is_pos,
    lemma_fundamental_div_mod, lemma_hoist_over_denominator, lemma_mod_pos_bound,
};
use vstd::arithmetic::mul::{lemma_mul_inequality, lemma_mul_is_commutative};

verus! {

/// How many whole periods of length `period` fit in `elapsed`. A span that
/// is not positive holds none, and neither does any span when the period is
/// not positive.
pub open spec fn whole_periods(elapsed: int, period: int) -> int {
    if elapsed > 0 && period > 0 {
        elapsed / period
    } else {
        0
    }
}

/// A span never holds a negative number of periods.
pub proof fn lemma_whole_periods_nonnegative(elapsed: int, period: int)
    ensures
        0 <= whole_periods(elapsed, period),
{
    if elapsed > 0 && period > 0 {
        lemma_div_pos_is_pos(elapsed, period);
    }
}

/// The periods counted fit in the span, and less than one more period is
/// left over.
pub proof fn lemma_whole_periods_bounds(elapsed: int, period: int)
    requires
        period > 0,
    ensures
        0 <= whole_periods(elapsed, period),
        elapsed >= 0 ==> whole_periods(elapsed, period) * period <= elapsed,
        elapsed >= 0 ==> elapsed - whole_periods(elapsed, period) * period < period,
        elapsed >= 0 ==> whole_periods(elapsed, period) <= elapsed,
{
    if elapsed > 0 {
        lemma_div_pos_is_pos(elapsed, period);
        lemma_fundamental_div_mod(elapsed, period);
        lemma_mod_pos_bound(elapsed, period);
        lemma_mul_is_commutative(period, elapsed / period);
        lemma_mul_inequality(1, period, elapsed / period);
        lemma_mul_is_commutative(period, elapsed / period);
    }
}

/// A longer span holds at least as many periods.
pub proof fn lemma_whole_periods_monotone(shorter: int, longer: int, period: int)
    requires
        shorter <= longer,
    ensures
        whole_periods(shorter, period) <= whole_periods(longer, period),
{
    if period > 0 {
        if shorter > 0 {
            lemma_div_is_ordered(shorter, longer, period);
        } else if longer > 0 {
            lemma_div_pos_is_pos(longer, period);
        }
    }
}

/// A span of exactly `count` periods holds `count` periods.
pub proof fn lemma_whole_periods_of_multiple(count: int, period: int)
    requires
        period > 0,
        count >= 0,
    ensures
        whole_periods(count * period, period) == count,
{
    lemma_div_multiples_vanish(count, period);
    lemma_mul_is_commutative(count, period);
    if count > 0 {
        lemma_mul_inequality(1, count, period);
    } else {
        assert(count * period == 0);
    }
}

/// Taking `count` whole periods off a span that holds them takes `count`
/// off the number of periods it holds.
pub proof fn lemma_whole_periods_shift(elapsed: int, count: int, period: int)
    requires
        period > 0,
        count >= 0,
        count * period <= elapsed,
    ensures
        whole_periods(elapsed - count * period, period) == whole_periods(elapsed, period) - count,
{
    let rest = elapsed - count * period;
    lemma_hoist_over_denominator(rest, count, period as nat);
    assert(rest / period + count == elapsed / period);
    if count > 0 {
        lemma_mul_inequality(1, count, period);
    } else {
        assert(count * period == 0);
    }
    if rest == 0 {
        lemma_whole_periods_of_multiple(count, period);
    }
}

/// If `count` periods fit in a span, the span holds at least `count`.
pub proof fn lemma_whole_periods_at_least(elapsed: int, count: int, period: int)
    requires
        period > 0,
        count >= 0,
        count * period <= elapsed,
    ensures
        count <= whole_periods(elapsed, period),
{
    lemma_whole_periods_of_multiple(count, period);
    lemma_whole_periods_monotone(count * period, elapsed, period);
}

/// Counts the whole periods of length `period` in `elapsed`.
pub fn count_whole_periods(elapsed: i128, period: i64) -> (count: u128)
    ensures
        count == whole_periods(elapsed as int, period as int),
{
    if elapsed > 0 && period > 0 {
        let span: u128 = elapsed as u128;
        let length: u128 = period as u128;
        span / length
    } else {
        0
    }
}

} // verus!
