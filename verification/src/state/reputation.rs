//! Per-user counters of successful and failed trades.

use vstd::prelude::*;

use crate::identity::Identity;

verus! {

/// A counter one step further, held at the largest value once it is reached.
pub open spec fn saturating_increment(count: u64) -> u64 {
    if count == u64::MAX {
        count
    } else {
        (count + 1) as u64
    }
}

/// A counter after `times` increments.
pub open spec fn after_increments(count: u64, times: nat) -> u64
    decreases times,
{
    if times == 0 {
        count
    } else {
        saturating_increment(after_increments(count, (times - 1) as nat))
    }
}

/// The running record of one user's trade outcomes.
#[derive(Clone, Copy, Debug, PartialEq, Eq)]
pub struct Reputation {
    pub user: Identity,
    pub successful_trades: u64,
    pub failed_trades: u64,
}

impl Reputation {
    /// Bytes of a stored record: discriminator, user, two counters.
    pub const LEN: usize = 8 + 32 + 8 + 8;

    /// The record with one more successful trade.
    pub open spec fn with_success(self) -> Reputation {
        Reputation { successful_trades: saturating_increment(self.successful_trades), ..self }
    }

    /// The record with one more failed trade.
    pub open spec fn with_failure(self) -> Reputation {
        Reputation { failed_trades: saturating_increment(self.failed_trades), ..self }
    }

    /// Both counters together, held at the largest value.
    pub open spec fn spec_total_trades(&self) -> u64 {
        if self.successful_trades + self.failed_trades > u64::MAX {
            u64::MAX
        } else {
            (self.successful_trades + self.failed_trades) as u64
        }
    }

    /// Successful trades per hundred, rounded down; 0 before the first trade.
    pub open spec fn spec_success_percent(&self) -> int {
        if self.successful_trades + self.failed_trades == 0 {
            0
        } else {
            self.successful_trades * 100 / (self.successful_trades + self.failed_trades)
        }
    }

    #[verifier::when_used_as_spec(spec_total_trades)]
    pub fn total_trades(&self) -> (total: u64)
        ensures
            total == self.spec_total_trades(),
    {
        self.successful_trades.saturating_add(self.failed_trades)
    }

    /// Successful trades per hundred trades, rounded down, counted without
    /// saturation; 0 before the first trade.
    pub fn success_percent(&self) -> (rate: u64)
        ensures
            rate == self.spec_success_percent(),
            rate <= 100,
    {
        let successful: u128 = self.successful_trades as u128;
        let total: u128 = successful + self.failed_trades as u128;
        if total == 0 {
            return 0;
        }
        let rate: u128 = successful * 100 / total;
        assert(rate <= 100) by (nonlinear_arith)
            requires
                rate == (successful * 100) / (total as int),
                0 <= successful <= total,
                total > 0,
        ;
        rate as u64
    }

    pub fn increment_successful(&mut self)
        ensures
            *final(self) == old(self).with_success(),
            final(self).successful_trades >= old(self).successful_trades,
    {
        self.successful_trades = self.successful_trades.saturating_add(1);
    }

    pub fn increment_failed(&mut self)
        ensures
            *final(self) == old(self).with_failure(),
            final(self).failed_trades >= old(self).failed_trades,
    {
        self.failed_trades = self.failed_trades.saturating_add(1);
    }
}

/// Counters never decrease and never wrap: after any number of increments a
/// counter holds its start plus that number, or the largest value where that
/// would not fit, so a counter at the largest value stays there.
pub proof fn lemma_counter_saturates(count: u64, times: nat)
    ensures
        after_increments(count, times) == (if count + times > u64::MAX {
            u64::MAX as int
        } else {
            count + times
        }),
        after_increments(count, times) >= count,
        after_increments(u64::MAX, times) == u64::MAX,
    decreases times,
{
    if times > 0 {
        lemma_counter_saturates(count, (times - 1) as nat);
        lemma_counter_saturates(u64::MAX, (times - 1) as nat);
    }
}

} // verus!
