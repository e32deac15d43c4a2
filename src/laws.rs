use vstd::prelude::*;
use crate::model::{Beat, Quantity, amount, latest_window, record_after, record_of, total};
use crate::record::{HeartbeatRecord, Ratio, rates_of};

verus! {

/// Each report adds exactly its own amount to the global sum of every
/// quantity, so the global sums are the sums over all reports made.
pub proof fn lemma_total_grows(h: Seq<Beat>, b: Beat, q: Quantity)
    ensures
        total(h.push(b), q) == total(h, q) + amount(b, q),
{
    assert(h.push(b).drop_last() =~= h);
}

/// After a whole number of windows, the window sums are the sums over exactly
/// the last `ws` reports.
pub proof fn lemma_full_windows(h: Seq<Beat>, ws: int, k: int, q: Quantity)
    requires
        ws > 0,
        k >= 1,
        h.len() == k * ws,
    ensures
        h.len() as int / ws == k,
        latest_window(h, ws) =~= h.subrange(h.len() - ws, h.len() as int),
        total(latest_window(h, ws), q) == total(h.subrange(h.len() - ws, h.len() as int), q),
{
    let n = h.len() as int;
    vstd::arithmetic::div_mod::lemma_fundamental_div_mod_converse(n, ws, k, 0);
    assert(n - 1 == (k - 1) * ws + (ws - 1)) by (nonlinear_arith)
        requires n == k * ws;
    vstd::arithmetic::div_mod::lemma_fundamental_div_mod_converse(n - 1, ws, k - 1, ws - 1);
    assert((k - 1) * ws == n - ws) by (nonlinear_arith)
        requires n == k * ws;
}

/// The record of report `j` carries `j` as its sequence number.
pub proof fn lemma_record_id(h: Seq<Beat>, j: int, ws: int)
    requires
        0 <= j < h.len(),
        h.len() <= u64::MAX,
    ensures
        record_of(h, j, ws).id == j,
{
}

/// Whether every scoped rate of `r` is the ratio of the counters stored beside
/// it: performance is work over time, accuracy rate is accuracy over work,
/// power is energy over time; the instant ones use the report's own amounts.
pub open spec fn rates_match(r: HeartbeatRecord) -> bool {
    let elapsed = (r.end_time - r.start_time) as u64;
    let consumed = (r.end_energy - r.start_energy) as u64;
    &&& r.performance == rates_of(r.work_counters, r.time_counters, r.work, elapsed)
    &&& r.accuracy_rate == rates_of(r.accuracy_counters, r.work_counters, r.accuracy, r.work)
    &&& r.power == rates_of(r.energy_counters, r.time_counters, consumed, elapsed)
}

/// The rates of every record are the ratios of the counters stored in it.
pub proof fn lemma_rates_consistent(h: Seq<Beat>, ws: int)
    requires
        h.len() > 0,
    ensures
        rates_match(record_after(h, ws)),
{
}

/// The global performance is the global work over the global time.
pub proof fn lemma_global_performance(h: Seq<Beat>, ws: int)
    requires
        h.len() > 0,
    ensures
        record_after(h, ws).performance.global == (Ratio {
            num: total(h, Quantity::Work) as u64,
            den: total(h, Quantity::Time) as u64,
        }),
{
}

} // verus!
