//! A payment that accrues period by period between two points in time.

use vstd::prelude::*;
use vstd::arithmetic::mul::{
    lemma_mul_inequality, lemma_mul_is_distributive_add_other_way, lemma_mul_nonnegative,
};
use crate::periods::{
    count_whole_periods, lemma_whole_periods_at_least, lemma_whole_periods_bounds,
    lemma_whole_periods_monotone, lemma_whole_periods_nonnegative,
    lemma_whole_periods_of_multiple, lemma_whole_periods_shift, whole_periods,
};
use crate::pubkey::Pubkey;

verus! {

/// A stream of `amount_per_period` for every whole `period_duration` that
/// has passed between `start_time` and `end_time`.
#[derive(Clone, Copy, Debug, PartialEq, Eq)]
pub struct PaymentStream {
    pub treasury: Pubkey,
    pub recipient: Pubkey,
    pub token_mint: Pubkey,
    pub amount_per_period: u64,
    /// The length of one period, in seconds.
    pub period_duration: i64,
    pub start_time: i64,
    pub end_time: i64,
    /// The end of the last period that was paid; `start_time` at first.
    pub last_payment_time: i64,
    pub total_paid: u64,
    pub is_active: bool,
    pub category: u8,
    pub created_by: Pubkey,
}

/// All that a stream with these terms pays from `start_time` to
/// `end_time`.
pub open spec fn schedule_total(
    amount_per_period: u64,
    period_duration: i64,
    start_time: i64,
    end_time: i64,
) -> int {
    whole_periods(end_time - start_time, period_duration as int) * amount_per_period
}

impl PaymentStream {
    /// The number of periods that have been paid.
    pub open spec fn paid_periods(&self) -> int {
        whole_periods(self.last_payment_time - self.start_time, self.period_duration as int)
    }

    /// The number of periods between `start_time` and `end_time`.
    pub open spec fn total_periods(&self) -> int {
        whole_periods(self.end_time - self.start_time, self.period_duration as int)
    }

    /// The invariant of a stream: it pays something each period; whole
    /// periods have been paid, none of them past the end, each with the
    /// amount per period; and all that the stream will ever pay fits in 64
    /// bits. A stream whose periods have no length has paid nothing and
    /// never will.
    pub open spec fn wf(&self) -> bool {
        &&& self.amount_per_period > 0
        &&& self.last_payment_time == self.start_time + self.paid_periods() * self.period_duration
        &&& self.paid_periods() <= self.total_periods()
        &&& self.total_paid == self.paid_periods() * self.amount_per_period
        &&& self.total_periods() * self.amount_per_period <= u64::MAX
    }

    /// The time up to which the stream has accrued at `now`.
    pub open spec fn accrued_until(&self, now: i64) -> i64 {
        if now < self.end_time {
            now
        } else {
            self.end_time
        }
    }

    /// The whole periods that have passed since the last payment and can be
    /// claimed at `now`: none while the stream is inactive or has not
    /// started.
    pub open spec fn due_periods(&self, now: i64) -> int {
        if self.is_active && now >= self.start_time {
            whole_periods(
                self.accrued_until(now) - self.last_payment_time,
                self.period_duration as int,
            )
        } else {
            0
        }
    }

    /// The amount that can be claimed at `now`.
    pub open spec fn due(&self, now: i64) -> int {
        self.due_periods(now) * self.amount_per_period
    }

    /// The stream after all that is due at `now` has been claimed.
    pub open spec fn advanced(&self, now: i64) -> PaymentStream {
        PaymentStream {
            last_payment_time: (self.last_payment_time + self.due_periods(now)
                * self.period_duration) as i64,
            total_paid: (self.total_paid + self.due(now)) as u64,
            ..*self
        }
    }

    /// What is due never runs past the end of the schedule, so it can be
    /// paid and recorded without leaving the range of the fields.
    pub proof fn lemma_due_bounds(&self, now: i64)
        requires
            self.wf(),
        ensures
            0 <= self.due_periods(now),
            self.paid_periods() + self.due_periods(now) <= self.total_periods(),
            0 <= self.due(now),
            self.total_paid + self.due(now) <= self.total_periods() * self.amount_per_period,
            self.total_paid + self.due(now) <= u64::MAX,
            self.last_payment_time <= self.last_payment_time + self.due_periods(now)
                * self.period_duration,
            self.due_periods(now) > 0 ==> self.last_payment_time + self.due_periods(now)
                * self.period_duration <= self.accrued_until(now),
            self.due(now) > 0 <==> self.due_periods(now) > 0,
    {
        let period = self.period_duration as int;
        let amount = self.amount_per_period as int;
        let due_periods = self.due_periods(now);
        let paid = self.paid_periods();
        let elapsed = self.accrued_until(now) - self.last_payment_time;
        lemma_whole_periods_nonnegative(elapsed, period);
        lemma_whole_periods_nonnegative(self.last_payment_time - self.start_time, period);
        if period > 0 {
            lemma_whole_periods_bounds(elapsed, period);
            lemma_whole_periods_bounds(self.last_payment_time - self.start_time, period);
            lemma_mul_nonnegative(due_periods, period);
        }
        lemma_mul_nonnegative(due_periods, amount);
        if due_periods > 0 {
            assert(due_periods * period <= elapsed);
            lemma_mul_is_distributive_add_other_way(period, paid, due_periods);
            assert((paid + due_periods) * period <= self.end_time - self.start_time);
            lemma_whole_periods_at_least(
                self.end_time - self.start_time,
                paid + due_periods,
                period,
            );
            lemma_mul_inequality(1, due_periods, amount);
        } else {
            assert(due_periods == 0);
            assert(due_periods * period == 0) by (nonlinear_arith)
                requires
                    due_periods == 0,
            ;
            assert(due_periods * amount == 0) by (nonlinear_arith)
                requires
                    due_periods == 0,
            ;
        }
        lemma_mul_is_distributive_add_other_way(amount, paid, due_periods);
        lemma_mul_inequality(paid + due_periods, self.total_periods(), amount);
    }

    /// Tests the invariant.
    pub fn is_well_formed(&self) -> (ok: bool)
        ensures
            ok == self.wf(),
    {
        if self.amount_per_period == 0 {
            return false;
        }
        if self.period_duration <= 0 {
            assert(self.paid_periods() * self.period_duration == 0);
            assert(self.paid_periods() * self.amount_per_period == 0);
            assert(self.total_periods() * self.amount_per_period == 0);
            return self.last_payment_time == self.start_time && self.total_paid == 0;
        }
        let paid: u128 = count_whole_periods(
            self.last_payment_time as i128 - self.start_time as i128,
            self.period_duration,
        );
        let total: u128 = count_whole_periods(
            self.end_time as i128 - self.start_time as i128,
            self.period_duration,
        );
        proof {
            lemma_whole_periods_bounds(
                self.last_payment_time - self.start_time,
                self.period_duration as int,
            );
            lemma_whole_periods_bounds(
                self.end_time - self.start_time,
                self.period_duration as int,
            );
            lemma_mul_inequality(paid as int, u64::MAX as int, self.period_duration as int);
            lemma_mul_inequality(paid as int, u64::MAX as int, self.amount_per_period as int);
            lemma_mul_inequality(total as int, u64::MAX as int, self.amount_per_period as int);
            assert(u64::MAX * self.period_duration <= u64::MAX * i64::MAX) by (nonlinear_arith)
                requires
                    0 < self.period_duration <= i64::MAX,
            ;
            assert(u64::MAX * self.amount_per_period <= u64::MAX * u64::MAX) by (nonlinear_arith)
                requires
                    0 < self.amount_per_period <= u64::MAX,
            ;
        }
        let span: u128 = paid * (self.period_duration as u128);
        let paid_amount: u128 = paid * (self.amount_per_period as u128);
        let total_amount: u128 = total * (self.amount_per_period as u128);
        self.last_payment_time as i128 == self.start_time as i128 + span as i128
            && paid <= total
            && self.total_paid as u128 == paid_amount
            && total_amount <= u64::MAX as u128
    }

    /// The amount that can be claimed at `now`.
    pub fn due_amount(&self, now: i64) -> (amount: u64)
        requires
            self.wf(),
        ensures
            amount == self.due(now),
    {
        if !self.is_active || now < self.start_time {
            assert(self.due_periods(now) * self.amount_per_period == 0) by (nonlinear_arith)
                requires
                    self.due_periods(now) == 0,
            ;
            return 0;
        }
        let until: i64 = if now < self.end_time { now } else { self.end_time };
        let periods: u128 = count_whole_periods(
            until as i128 - self.last_payment_time as i128,
            self.period_duration,
        );
        proof {
            self.lemma_due_bounds(now);
            lemma_mul_inequality(1, self.amount_per_period as int, periods as int);
        }
        let amount: u128 = periods * (self.amount_per_period as u128);
        amount as u64
    }

    /// Records that all that is due at `now` has been claimed: the paid
    /// periods are consumed and their amount is added to the total.
    pub fn advance(&mut self, now: i64)
        requires
            old(self).wf(),
        ensures
            *final(self) == old(self).advanced(now),
            final(self).wf(),
            final(self).last_payment_time == old(self).last_payment_time + old(self).due_periods(
                now,
            ) * old(self).period_duration,
            final(self).total_paid == old(self).total_paid + old(self).due(now),
    {
        let amount: u64 = self.due_amount(now);
        proof {
            self.lemma_due_bounds(now);
            self.lemma_advanced_wf(now);
        }
        if amount > 0 {
            assert(self.period_duration > 0);
            let until: i64 = if now < self.end_time { now } else { self.end_time };
            let periods: u128 = count_whole_periods(
                until as i128 - self.last_payment_time as i128,
                self.period_duration,
            );
            let span: u128 = periods * (self.period_duration as u128);
            self.last_payment_time = (self.last_payment_time as i128 + span as i128) as i64;
            self.total_paid = self.total_paid + amount;
        } else {
            assert(self.due_periods(now) * self.period_duration == 0) by (nonlinear_arith)
                requires
                    self.due_periods(now) == 0,
            ;
        }
    }

    /// Claiming what is due keeps the invariant.
    pub proof fn lemma_advanced_wf(&self, now: i64)
        requires
            self.wf(),
        ensures
            self.advanced(now).wf(),
            self.advanced(now).last_payment_time == self.last_payment_time + self.due_periods(now)
                * self.period_duration,
            self.advanced(now).total_paid == self.total_paid + self.due(now),
            self.advanced(now).paid_periods() == self.paid_periods() + self.due_periods(now),
    {
        let period = self.period_duration as int;
        let amount = self.amount_per_period as int;
        let due_periods = self.due_periods(now);
        let paid = self.paid_periods();
        let next = self.advanced(now);
        self.lemma_due_bounds(now);
        lemma_whole_periods_nonnegative(self.last_payment_time - self.start_time, period);
        if due_periods == 0 {
            assert(due_periods * period == 0);
            assert(due_periods * amount == 0);
        }
        assert(next.last_payment_time == self.last_payment_time + due_periods * period);
        lemma_mul_is_distributive_add_other_way(period, paid, due_periods);
        assert(next.last_payment_time - next.start_time == (paid + due_periods) * period);
        if period > 0 {
            lemma_whole_periods_of_multiple(paid + due_periods, period);
        }
        assert(next.paid_periods() == paid + due_periods);
        lemma_mul_is_distributive_add_other_way(amount, paid, due_periods);
    }
    /// What is due never shrinks as time passes.
    pub proof fn lemma_due_monotone(&self, earlier: i64, later: i64)
        requires
            earlier <= later,
        ensures
            self.due(earlier) <= self.due(later),
            0 <= self.due(earlier),
    {
        let period = self.period_duration as int;
        let amount = self.amount_per_period as int;
        let before = self.accrued_until(earlier) - self.last_payment_time;
        let after = self.accrued_until(later) - self.last_payment_time;
        lemma_whole_periods_monotone(before, after, period);
        lemma_whole_periods_nonnegative(before, period);
        assert(0 <= self.due_periods(earlier) <= self.due_periods(later));
        lemma_mul_inequality(self.due_periods(earlier), self.due_periods(later), amount);
        lemma_mul_nonnegative(self.due_periods(earlier), amount);
    }

    /// Once the end of the stream has passed, what is due no longer changes.
    pub proof fn lemma_due_constant_after_end(&self, first: i64, second: i64)
        requires
            self.wf(),
            self.end_time <= first,
            self.end_time <= second,
        ensures
            self.due(first) == self.due(second),
    {
        let period = self.period_duration as int;
        lemma_whole_periods_nonnegative(self.last_payment_time - self.start_time, period);
        if self.end_time < self.start_time {
            assert(self.total_periods() == 0);
            assert(self.paid_periods() == 0);
            assert(self.paid_periods() * period == 0);
            assert(self.due_periods(first) == 0);
            assert(self.due_periods(second) == 0);
        }
    }

    /// No period is paid twice: after a claim at `now`, what is due at any
    /// later time is what would have been due then, less what was claimed.
    /// Right after the claim nothing is due.
    pub proof fn lemma_no_double_payment(&self, now: i64, later: i64)
        requires
            self.wf(),
            now <= later,
        ensures
            self.advanced(now).due(later) == self.due(later) - self.due(now),
            self.advanced(now).due(now) == 0,
            self.advanced(now).total_paid + self.advanced(now).due(later) == self.total_paid
                + self.due(later),
    {
        self.lemma_periods_after_claim(now, now);
        self.lemma_periods_after_claim(now, later);
        self.lemma_advanced_wf(now);
        let amount = self.amount_per_period as int;
        let next = self.advanced(now);
        assert(next.amount_per_period == self.amount_per_period);
        assert((self.due_periods(later) - self.due_periods(now)) * amount == self.due_periods(later)
            * amount - self.due_periods(now) * amount) by (nonlinear_arith);
        assert((self.due_periods(now) - self.due_periods(now)) * amount == 0) by (nonlinear_arith);
    }

    /// The periods due after a claim are those that were due, less those
    /// that were claimed.
    proof fn lemma_periods_after_claim(&self, now: i64, later: i64)
        requires
            self.wf(),
            now <= later,
        ensures
            self.advanced(now).due_periods(later) == self.due_periods(later) - self.due_periods(
                now,
            ),
    {
        let period = self.period_duration as int;
        let claimed = self.due_periods(now);
        let next = self.advanced(now);
        self.lemma_due_bounds(now);
        self.lemma_advanced_wf(now);
        if claimed == 0 {
            assert(claimed * period == 0);
            assert(next.last_payment_time == self.last_payment_time);
        } else {
            let before = self.accrued_until(now) - self.last_payment_time;
            let after = self.accrued_until(later) - self.last_payment_time;
            assert(claimed * period <= before);
            assert(before <= after);
            lemma_whole_periods_shift(after, claimed, period);
            assert(next.accrued_until(later) - next.last_payment_time == after - claimed * period);
        }
    }
}

} // verus!
