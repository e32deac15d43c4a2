use vstd::prelude::*;

verus! {

/// The pair of running sums kept for one tracked quantity: everything since
/// the context was created, and everything since the last window boundary.
#[derive(Clone, Copy, Debug, PartialEq, Eq, Structural)]
pub struct Counter {
    pub global: u64,
    pub window: u64,
}

/// A rate kept as an exact fraction `num / den`.
///
/// A zero denominator stands for the degenerate rates of a report with no
/// elapsed time or no work; turned into a float it gives not-a-number or an
/// infinity, never a trap.
#[derive(Clone, Copy, Debug, PartialEq, Eq, Structural)]
pub struct Ratio {
    pub num: u64,
    pub den: u64,
}

/// A rate at its three scopes: since creation, over the current window, and
/// for the single report alone.
#[derive(Clone, Copy, Debug, PartialEq, Eq, Structural)]
pub struct Rates {
    pub global: Ratio,
    pub window: Ratio,
    pub instant: Ratio,
}

/// What one report left behind: its own inputs and every derived metric as it
/// stood right after it.
#[derive(Clone, Copy, Debug, PartialEq, Eq, Structural)]
pub struct HeartbeatRecord {
    pub id: u64,
    pub user_tag: u64,
    pub work: u64,
    pub work_counters: Counter,
    pub start_time: u64,
    pub end_time: u64,
    pub time_counters: Counter,
    pub performance: Rates,
    pub accuracy: u64,
    pub accuracy_counters: Counter,
    pub accuracy_rate: Rates,
    pub start_energy: u64,
    pub end_energy: u64,
    pub energy_counters: Counter,
    pub power: Rates,
}

pub open spec fn zero_counter() -> Counter {
    Counter { global: 0, window: 0 }
}

pub open spec fn zero_ratio() -> Ratio {
    Ratio { num: 0, den: 0 }
}

pub open spec fn zero_rates() -> Rates {
    Rates { global: zero_ratio(), window: zero_ratio(), instant: zero_ratio() }
}

/// The three scoped rates of `num` over `den`, with the report's own pair as
/// the instant one.
pub open spec fn rates_of(num: Counter, den: Counter, inum: u64, iden: u64) -> Rates {
    Rates {
        global: Ratio { num: num.global, den: den.global },
        window: Ratio { num: num.window, den: den.window },
        instant: Ratio { num: inum, den: iden },
    }
}

/// The record that stands for "nothing reported yet": every field zero.
pub open spec fn zero_record() -> HeartbeatRecord {
    HeartbeatRecord {
        id: 0,
        user_tag: 0,
        work: 0,
        work_counters: zero_counter(),
        start_time: 0,
        end_time: 0,
        time_counters: zero_counter(),
        performance: zero_rates(),
        accuracy: 0,
        accuracy_counters: zero_counter(),
        accuracy_rate: zero_rates(),
        start_energy: 0,
        end_energy: 0,
        energy_counters: zero_counter(),
        power: zero_rates(),
    }
}

impl Counter {
    pub fn zero() -> (r: Counter)
        ensures
            r == zero_counter(),
    {
        Counter { global: 0, window: 0 }
    }

    /// Both sums grown by `x`.
    pub fn add(self, x: u64) -> (r: Counter)
        requires
            self.window <= self.global,
            self.global + x <= u64::MAX,
        ensures
            r.global == self.global + x,
            r.window == self.window + x,
            r.window <= r.global,
    {
        Counter { global: self.global + x, window: self.window + x }
    }

    /// The window sum started afresh; the global one kept.
    pub fn reset_window(self) -> (r: Counter)
        ensures
            r.global == self.global,
            r.window == 0,
    {
        Counter { global: self.global, window: 0 }
    }
}

impl Ratio {
    pub fn zero() -> (r: Ratio)
        ensures
            r == zero_ratio(),
    {
        Ratio { num: 0, den: 0 }
    }
}

impl Rates {
    pub fn zero() -> (r: Rates)
        ensures
            r == zero_rates(),
    {
        Rates { global: Ratio::zero(), window: Ratio::zero(), instant: Ratio::zero() }
    }

    /// The rates of one counter pair over another, with `inum / iden` as the
    /// instant rate.
    pub fn of(num: &Counter, den: &Counter, inum: u64, iden: u64) -> (r: Rates)
        ensures
            r == rates_of(*num, *den, inum, iden),
    {
        Rates {
            global: Ratio { num: num.global, den: den.global },
            window: Ratio { num: num.window, den: den.window },
            instant: Ratio { num: inum, den: iden },
        }
    }
}

impl HeartbeatRecord {
    pub fn zero() -> (r: HeartbeatRecord)
        ensures
            r == zero_record(),
    {
        HeartbeatRecord {
            id: 0,
            user_tag: 0,
            work: 0,
            work_counters: Counter::zero(),
            start_time: 0,
            end_time: 0,
            time_counters: Counter::zero(),
            performance: Rates::zero(),
            accuracy: 0,
            accuracy_counters: Counter::zero(),
            accuracy_rate: Rates::zero(),
            start_energy: 0,
            end_energy: 0,
            energy_counters: Counter::zero(),
            power: Rates::zero(),
        }
    }
}

} // verus!
