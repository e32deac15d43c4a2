use vstd::prelude::*;
use crate::record::{Counter, HeartbeatRecord, Rates, Ratio, rates_of, zero_record};

verus! {

/// The inputs of one report, as the model of a context's history keeps them.
#[derive(Clone, Copy, Debug, PartialEq, Eq, Structural)]
pub struct Beat {
    pub tag: u64,
    pub work: u64,
    pub start_time: u64,
    pub end_time: u64,
    pub accuracy: u64,
    pub start_energy: u64,
    pub end_energy: u64,
}

/// The quantities that a context sums up.
#[derive(Clone, Copy, Debug, PartialEq, Eq, Structural)]
pub enum Quantity {
    Work,
    Time,
    Accuracy,
    Energy,
}

/// What one report adds to the sum of `q`.
pub open spec fn amount(b: Beat, q: Quantity) -> int {
    match q {
        Quantity::Work => b.work as int,
        Quantity::Time => b.end_time - b.start_time,
        Quantity::Accuracy => b.accuracy as int,
        Quantity::Energy => b.end_energy - b.start_energy,
    }
}

/// The sum of `q` over a run of reports.
pub open spec fn total(h: Seq<Beat>, q: Quantity) -> int
    decreases h.len(),
{
    if h.len() == 0 {
        0
    } else {
        total(h.drop_last(), q) + amount(h.last(), q)
    }
}

/// The index of the first report of the window that report `j` falls in.
pub open spec fn window_start(j: int, ws: int) -> int {
    (j / ws) * ws
}

/// The reports of the window that the latest report of `h` falls in: the
/// window it completed, or the one it is filling.
pub open spec fn latest_window(h: Seq<Beat>, ws: int) -> Seq<Beat> {
    if h.len() == 0 {
        h
    } else {
        h.subrange(window_start(h.len() - 1, ws), h.len() as int)
    }
}

/// The reports since the last window boundary.
pub open spec fn open_window(h: Seq<Beat>, ws: int) -> Seq<Beat> {
    h.subrange(window_start(h.len() as int, ws), h.len() as int)
}

/// Whether the report with sequence number `j` completes a window.
pub open spec fn completes_window(j: int, ws: int) -> bool {
    j % ws == ws - 1
}

/// The counter pair of `q` as it stood right after the latest report of `h`.
pub open spec fn counter_after(h: Seq<Beat>, ws: int, q: Quantity) -> Counter {
    Counter { global: total(h, q) as u64, window: total(latest_window(h, ws), q) as u64 }
}

/// The record of the latest report of `h`, in a context of window size `ws`;
/// the zero record when nothing has been reported.
pub open spec fn record_after(h: Seq<Beat>, ws: int) -> HeartbeatRecord {
    if h.len() == 0 {
        zero_record()
    } else {
        let b = h.last();
        let wd = counter_after(h, ws, Quantity::Work);
        let td = counter_after(h, ws, Quantity::Time);
        let ad = counter_after(h, ws, Quantity::Accuracy);
        let ed = counter_after(h, ws, Quantity::Energy);
        let elapsed = (b.end_time - b.start_time) as u64;
        HeartbeatRecord {
            id: (h.len() - 1) as u64,
            user_tag: b.tag,
            work: b.work,
            work_counters: wd,
            start_time: b.start_time,
            end_time: b.end_time,
            time_counters: td,
            performance: rates_of(wd, td, b.work, elapsed),
            accuracy: b.accuracy,
            accuracy_counters: ad,
            accuracy_rate: rates_of(ad, wd, b.accuracy, b.work),
            start_energy: b.start_energy,
            end_energy: b.end_energy,
            energy_counters: ed,
            power: rates_of(ed, td, (b.end_energy - b.start_energy) as u64, elapsed),
        }
    }
}

/// The record of report `j` of `h`.
pub open spec fn record_of(h: Seq<Beat>, j: int, ws: int) -> HeartbeatRecord {
    record_after(h.take(j + 1), ws)
}

/// Pushing a report adds its amount to the sum of any run that ends with it.
pub proof fn lemma_total_push(h: Seq<Beat>, b: Beat, s: int, q: Quantity)
    requires
        0 <= s <= h.len(),
    ensures
        total(h.push(b).subrange(s, h.len() + 1 as int), q) == total(h.subrange(s, h.len() as int), q)
            + amount(b, q),
{
    assert(h.push(b).subrange(s, h.len() + 1 as int).drop_last() =~= h.subrange(s, h.len() as int));
}

/// How the window start moves by one report: it stays, or it jumps to the
/// new report count exactly when the report completed a window.
pub proof fn lemma_window_step(n: int, ws: int)
    requires
        0 <= n,
        0 < ws,
    ensures
        0 <= window_start(n, ws) <= n,
        completes_window(n, ws) ==> window_start(n + 1, ws) == n + 1,
        !completes_window(n, ws) ==> window_start(n + 1, ws) == window_start(n, ws),
        completes_window(n, ws) ==> (n + 1) / ws == n / ws + 1,
        !completes_window(n, ws) ==> (n + 1) / ws == n / ws,
{
    let q = n / ws;
    let r = n % ws;
    vstd::arithmetic::div_mod::lemma_fundamental_div_mod(n, ws);
    vstd::arithmetic::div_mod::lemma_mod_pos_bound(n, ws);
    assert(0 <= q) by (nonlinear_arith)
        requires 0 <= n, 0 < ws, q == n / ws;
    assert(0 <= q * ws <= n) by (nonlinear_arith)
        requires 0 <= q, 0 < ws, n == ws * q + r, 0 <= r;
    if r == ws - 1 {
        assert(n + 1 == (q + 1) * ws + 0) by (nonlinear_arith)
            requires n == ws * q + r, r == ws - 1;
        vstd::arithmetic::div_mod::lemma_fundamental_div_mod_converse(n + 1, ws, q + 1, 0);
        assert((q + 1) * ws == n + 1);
    } else {
        assert(n + 1 == q * ws + (r + 1)) by (nonlinear_arith)
            requires n == ws * q + r;
        vstd::arithmetic::div_mod::lemma_fundamental_div_mod_converse(n + 1, ws, q, r + 1);
    }
}

/// Two reports less than a window apart land in different slots.
pub proof fn lemma_slots_differ(j: int, n: int, ws: int)
    requires
        0 <= j < n,
        n - j < ws,
    ensures
        j % ws != n % ws,
{
    vstd::arithmetic::div_mod::lemma_fundamental_div_mod(j, ws);
    vstd::arithmetic::div_mod::lemma_fundamental_div_mod(n, ws);
    vstd::arithmetic::div_mod::lemma_mod_pos_bound(j, ws);
    vstd::arithmetic::div_mod::lemma_mod_pos_bound(n, ws);
    if j % ws == n % ws {
        assert(n - j == (n / ws - j / ws) * ws) by (nonlinear_arith)
            requires
                j == ws * (j / ws) + j % ws,
                n == ws * (n / ws) + n % ws,
                j % ws == n % ws;
        assert(false) by (nonlinear_arith)
            requires
                n - j == (n / ws - j / ws) * ws,
                0 < n - j < ws;
    }
}

} // verus!
