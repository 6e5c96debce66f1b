//! Rolling timing statistics of the worker's hops.
//!
//! The statistics are advisory: nothing else in the crate reads them.

use vstd::prelude::*;

verus! {

/// Number of hops between two timing summaries.
pub const REPORT_INTERVAL_HOPS: u64 = 200;

/// Microseconds in one second.
pub const MICROS_PER_SECOND: u128 = 1_000_000;

/// Time that one hop may take without falling behind real time, in
/// microseconds, rounded down: `hop_size / sample_rate` seconds. A rate of
/// zero allows no time at all.
pub open spec fn spec_budget_us(hop_size: usize, sample_rate: u32) -> u128 {
    if sample_rate == 0 {
        0
    } else {
        (hop_size as int * MICROS_PER_SECOND as int / sample_rate as int) as u128
    }
}

/// Real-time budget of one hop in microseconds.
pub fn budget_us(hop_size: usize, sample_rate: u32) -> (budget: u128)
    ensures
        budget == spec_budget_us(hop_size, sample_rate),
{
    if sample_rate == 0 {
        0
    } else {
        assert(hop_size as u128 * MICROS_PER_SECOND <= u128::MAX) by {
            assert(hop_size as u128 <= 0xffff_ffff_ffff_ffff);
            assert(hop_size as u128 * 1_000_000 <= 0xffff_ffff_ffff_ffff * 1_000_000)
                by (nonlinear_arith)
                requires
                    hop_size as u128 <= 0xffff_ffff_ffff_ffff,
            ;
        }
        hop_size as u128 * MICROS_PER_SECOND / sample_rate as u128
    }
}

/// What the statistics say after a whole number of report intervals.
#[derive(Clone, Copy, Debug)]
pub struct TimingSummary {
    /// Hops measured so far.
    pub hops: u64,
    /// Mean processing time of a hop in microseconds, rounded down.
    pub avg_us: u128,
    /// Longest processing time of a hop in microseconds.
    pub max_us: u128,
    /// Real-time budget of a hop in microseconds.
    pub budget_us: u128,
}

impl TimingSummary {
    /// The worker is falling behind: the mean exceeds the budget.
    pub open spec fn spec_over_budget(self) -> bool {
        self.avg_us > self.budget_us
    }

    /// Mean processing time in thousandths of the budget, rounded down;
    /// nothing where the budget is zero or the product leaves `u128`.
    pub open spec fn spec_load_permille(self) -> Option<u128> {
        if self.budget_us == 0 || self.avg_us * 1000 > u128::MAX {
            None
        } else {
            Some((self.avg_us as int * 1000 / self.budget_us as int) as u128)
        }
    }

    /// Tells whether the mean processing time exceeds the budget.
    pub fn over_budget(&self) -> (over: bool)
        ensures
            over == self.spec_over_budget(),
    {
        self.avg_us > self.budget_us
    }

    /// Load ratio in thousandths of the budget.
    pub fn load_permille(&self) -> (load: Option<u128>)
        ensures
            load == self.spec_load_permille(),
    {
        if self.budget_us == 0 {
            return None;
        }
        match self.avg_us.checked_mul(1000) {
            Some(scaled) => Some(scaled / self.budget_us),
            None => None,
        }
    }
}

/// Count, total and maximum of the hop processing times.
#[derive(Clone, Copy, Debug)]
pub struct Instrumentation {
    count: u64,
    total_us: u128,
    max_us: u128,
    interval: u64,
    budget_us: u128,
}

/// The counters as plain numbers.
pub struct InstrumentationView {
    pub count: u64,
    pub total_us: u128,
    pub max_us: u128,
    pub interval: u64,
    pub budget_us: u128,
}

impl InstrumentationView {
    /// The counters after one more hop that took `elapsed_us`: count and
    /// total grow and stop at the greatest value of their type, the maximum
    /// follows.
    pub open spec fn recorded(self, elapsed_us: u128) -> InstrumentationView {
        InstrumentationView {
            count: if self.count == u64::MAX {
                u64::MAX
            } else {
                (self.count + 1) as u64
            },
            total_us: if self.total_us + elapsed_us > u128::MAX {
                u128::MAX
            } else {
                (self.total_us + elapsed_us) as u128
            },
            max_us: if elapsed_us > self.max_us {
                elapsed_us
            } else {
                self.max_us
            },
            interval: self.interval,
            budget_us: self.budget_us,
        }
    }

    /// A summary is due: reporting is on and the count is a whole multiple
    /// of the interval.
    pub open spec fn due(self) -> bool {
        self.interval != 0 && self.count > 0 && self.count % self.interval == 0
    }

    /// The summary of these counters.
    pub open spec fn summary(self) -> TimingSummary {
        TimingSummary {
            hops: self.count,
            avg_us: if self.count == 0 {
                0
            } else {
                (self.total_us as int / self.count as int) as u128
            },
            max_us: self.max_us,
            budget_us: self.budget_us,
        }
    }
}

impl View for Instrumentation {
    type V = InstrumentationView;

    closed spec fn view(&self) -> InstrumentationView {
        InstrumentationView {
            count: self.count,
            total_us: self.total_us,
            max_us: self.max_us,
            interval: self.interval,
            budget_us: self.budget_us,
        }
    }
}

impl Instrumentation {
    /// Fresh counters that report every `interval` hops against `budget_us`;
    /// an interval of zero turns the reports off.
    pub fn new(interval: u64, budget_us: u128) -> (stats: Instrumentation)
        ensures
            stats@ == (InstrumentationView {
                count: 0,
                total_us: 0,
                max_us: 0,
                interval,
                budget_us,
            }),
    {
        Instrumentation { count: 0, total_us: 0, max_us: 0, interval, budget_us }
    }

    /// Counts one hop that took `elapsed_us` and returns a summary after
    /// every whole interval.
    pub fn record(&mut self, elapsed_us: u128) -> (report: Option<TimingSummary>)
        ensures
            final(self)@ == old(self)@.recorded(elapsed_us),
            report == if final(self)@.due() {
                Some(final(self)@.summary())
            } else {
                None
            },
    {
        self.count = self.count.saturating_add(1);
        self.total_us = self.total_us.saturating_add(elapsed_us);
        if elapsed_us > self.max_us {
            self.max_us = elapsed_us;
        }
        if self.interval != 0 && self.count % self.interval == 0 {
            Some(self.summary())
        } else {
            None
        }
    }

    /// The summary of the counters as they stand.
    pub fn summary(&self) -> (summary: TimingSummary)
        ensures
            summary == self@.summary(),
    {
        let avg_us: u128 = if self.count == 0 {
            0
        } else {
            self.total_us / self.count as u128
        };
        TimingSummary { hops: self.count, avg_us, max_us: self.max_us, budget_us: self.budget_us }
    }

    /// Hops measured so far.
    pub fn count(&self) -> (count: u64)
        ensures
            count == self@.count,
    {
        self.count
    }
}

} // verus!
