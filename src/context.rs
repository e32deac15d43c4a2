use vstd::prelude::*;
use crate::model::{
    Beat, Quantity, amount, completes_window, latest_window, lemma_slots_differ, lemma_total_push,
    lemma_window_step, open_window, record_after, record_of, total, window_start,
};
use crate::laws::lemma_record_id;
use crate::record::{Counter, HeartbeatRecord, Rates, Ratio};

verus! {

/// The state of one monitored entity: the ring buffer of the most recent
/// records, the live counter pairs, and the report count.
pub struct HeartbeatContext {
    window_size: u64,
    user_tag: u64,
    beats: u64,
    buffer: Vec<HeartbeatRecord>,
    work: Counter,
    time: Counter,
    accuracy: Counter,
    energy: Counter,
    latest: HeartbeatRecord,
    history: Ghost<Seq<Beat>>,
}

/// The live counter pair of `q` after the reports of `h`: the window sum
/// covers only the reports since the last boundary.
pub open spec fn live_counter(c: Counter, h: Seq<Beat>, ws: int, q: Quantity) -> bool {
    &&& c.global == total(h, q)
    &&& c.window == total(open_window(h, ws), q)
    &&& c.window <= c.global
}

/// The window sum of `q` as of the latest report lies within its global sum.
pub open spec fn window_within(h: Seq<Beat>, ws: int, q: Quantity) -> bool {
    0 <= total(latest_window(h, ws), q) <= total(h, q)
}

impl HeartbeatContext {
    /// Every report made on this context, oldest first.
    pub closed spec fn history(&self) -> Seq<Beat> {
        self.history@
    }

    /// The number of reports that make up a window.
    pub closed spec fn ws(&self) -> int {
        self.window_size as int
    }

    /// The tag that the next read of the user tag gives.
    pub closed spec fn tag(&self) -> u64 {
        self.user_tag
    }

    /// The record of the latest report, or the zero record before any.
    pub open spec fn current(&self) -> HeartbeatRecord {
        record_after(self.history(), self.ws())
    }

    /// The length of the ring buffer's valid part: the reports so far, up
    /// to one window.
    pub open spec fn valid_len(&self) -> int {
        if self.history().len() < self.ws() {
            self.history().len() as int
        } else {
            self.ws()
        }
    }

    pub closed spec fn wf(&self) -> bool {
        let h = self.history@;
        let ws = self.window_size as int;
        let n = h.len() as int;
        &&& ws > 0
        &&& ws <= usize::MAX
        &&& self.buffer@.len() == ws
        &&& self.beats as int == n
        &&& live_counter(self.work, h, ws, Quantity::Work)
        &&& live_counter(self.time, h, ws, Quantity::Time)
        &&& live_counter(self.accuracy, h, ws, Quantity::Accuracy)
        &&& live_counter(self.energy, h, ws, Quantity::Energy)
        &&& window_within(h, ws, Quantity::Work)
        &&& window_within(h, ws, Quantity::Time)
        &&& window_within(h, ws, Quantity::Accuracy)
        &&& window_within(h, ws, Quantity::Energy)
        &&& self.latest == record_after(h, ws)
        &&& forall|j: int|
            n - ws <= j < n && 0 <= j ==> #[trigger] self.buffer@[j % ws] == record_of(h, j, ws)
    }

    /// A well-formed context has a window of at least one report.
    pub proof fn lemma_ws_positive(&self)
        requires
            self.wf(),
        ensures
            self.ws() > 0,
    {
    }

    /// In a well-formed context the window sum of every quantity, as of the
    /// latest report, lies within its global sum.
    pub proof fn lemma_window_within(&self)
        requires
            self.wf(),
        ensures
            window_within(self.history(), self.ws(), Quantity::Work),
            window_within(self.history(), self.ws(), Quantity::Time),
            window_within(self.history(), self.ws(), Quantity::Accuracy),
            window_within(self.history(), self.ws(), Quantity::Energy),
    {
    }

    /// Whether a report of `b` can be taken: its end is not before its start
    /// for time and for energy, and every sum and the report count still fit
    /// in 64 bits.
    pub open spec fn admits(&self, b: Beat) -> bool {
        let h = self.history();
        &&& b.start_time <= b.end_time
        &&& b.start_energy <= b.end_energy
        &&& h.len() < u64::MAX
        &&& total(h, Quantity::Work) + amount(b, Quantity::Work) <= u64::MAX
        &&& total(h, Quantity::Time) + amount(b, Quantity::Time) <= u64::MAX
        &&& total(h, Quantity::Accuracy) + amount(b, Quantity::Accuracy) <= u64::MAX
        &&& total(h, Quantity::Energy) + amount(b, Quantity::Energy) <= u64::MAX
    }

    /// A context with a buffer of `window_size` records, all counters zero and
    /// the user tag `u64::MAX`; fails when `window_size` is zero.
    pub fn new(window_size: usize) -> (r: Result<HeartbeatContext, &'static str>)
        ensures
            r is Err <==> window_size == 0,
            r matches Err(e) ==> e@ == "Failed to initialize heartbeat"@,
            r matches Ok(c) ==> {
                &&& c.wf()
                &&& c.ws() == window_size
                &&& c.history() == Seq::<Beat>::empty()
                &&& c.tag() == u64::MAX
            },
    {
        if window_size == 0 {
            return Err("Failed to initialize heartbeat");
        }
        let mut buffer: Vec<HeartbeatRecord> = Vec::new();
        let mut i: usize = 0;
        while i < window_size
            invariant
                i <= window_size,
                buffer@.len() == i,
            decreases window_size - i,
        {
            buffer.push(HeartbeatRecord::zero());
            i = i + 1;
        }
        let ghost h = Seq::<Beat>::empty();
        proof {
            lemma_window_step(0, window_size as int);
            assert(open_window(h, window_size as int) =~= h);
        }
        Ok(HeartbeatContext {
            window_size: window_size as u64,
            user_tag: u64::MAX,
            beats: 0,
            buffer,
            work: Counter::zero(),
            time: Counter::zero(),
            accuracy: Counter::zero(),
            energy: Counter::zero(),
            latest: HeartbeatRecord::zero(),
            history: Ghost(h),
        })
    }

    /// Takes one report: adds its amounts to every counter pair, stores its
    /// record in slot `sequence_id % window_size`, and, when it completes a
    /// window, starts the window sums afresh. Returns whether it completed a
    /// window. The user tag becomes the report's tag.
    pub fn report(
        &mut self,
        tag: u64,
        work: u64,
        start_time: u64,
        end_time: u64,
        accuracy: u64,
        start_energy: u64,
        end_energy: u64,
    ) -> (complete: bool)
        requires
            old(self).wf(),
            old(self).admits(
                Beat { tag, work, start_time, end_time, accuracy, start_energy, end_energy },
            ),
        ensures
            final(self).wf(),
            final(self).ws() == old(self).ws(),
            final(self).history() == old(self).history().push(
                Beat { tag, work, start_time, end_time, accuracy, start_energy, end_energy },
            ),
            final(self).tag() == tag,
            complete == completes_window(old(self).history().len() as int, old(self).ws()),
    {
        let ghost b = Beat { tag, work, start_time, end_time, accuracy, start_energy, end_energy };
        let ghost h0 = self.history@;
        let ghost h = h0.push(b);
        let ghost ws = self.window_size as int;
        let ghost n = h0.len() as int;
        let ghost buf0 = self.buffer@;
        proof {
            lemma_window_step(n, ws);
            lemma_total_push(h0, b, window_start(n, ws), Quantity::Work);
            lemma_total_push(h0, b, window_start(n, ws), Quantity::Time);
            lemma_total_push(h0, b, window_start(n, ws), Quantity::Accuracy);
            lemma_total_push(h0, b, window_start(n, ws), Quantity::Energy);
            assert(h.drop_last() =~= h0);
        }
        let elapsed = end_time - start_time;
        let consumed = end_energy - start_energy;
        self.work = self.work.add(work);
        self.time = self.time.add(elapsed);
        self.accuracy = self.accuracy.add(accuracy);
        self.energy = self.energy.add(consumed);
        let rec = HeartbeatRecord {
            id: self.beats,
            user_tag: tag,
            work,
            work_counters: self.work,
            start_time,
            end_time,
            time_counters: self.time,
            performance: Rates::of(&self.work, &self.time, work, elapsed),
            accuracy,
            accuracy_counters: self.accuracy,
            accuracy_rate: Rates::of(&self.accuracy, &self.work, accuracy, work),
            start_energy,
            end_energy,
            energy_counters: self.energy,
            power: Rates::of(&self.energy, &self.time, consumed, elapsed),
        };
        proof {
            assert(h.take(n + 1) =~= h);
            assert(rec == record_after(h, ws));
        }
        let slot = (self.beats % self.window_size) as usize;
        self.buffer.set(slot, rec);
        self.latest = rec;
        let complete = self.beats % self.window_size == self.window_size - 1;
        if complete {
            self.work = self.work.reset_window();
            self.time = self.time.reset_window();
            self.accuracy = self.accuracy.reset_window();
            self.energy = self.energy.reset_window();
        }
        self.beats = self.beats + 1;
        self.user_tag = tag;
        self.history = Ghost(h);
        proof {
            assert forall|j: int| n + 1 - ws <= j < n + 1 && 0 <= j implies
                #[trigger] self.buffer@[j % ws] == record_of(h, j, ws) by {
                if j < n {
                    lemma_slots_differ(j, n, ws);
                    assert(h.take(j + 1) =~= h0.take(j + 1));
                    assert(buf0[j % ws] == record_of(h0, j, ws));
                } else {
                    assert(h.take(j + 1) =~= h);
                }
            }
            if complete {
                assert(open_window(h, ws) =~= Seq::<Beat>::empty());
            } else {
                assert(open_window(h, ws) =~= h.subrange(window_start(n, ws), n + 1));
            }
        }
        complete
    }

    /// The number of reports that make up a window.
    pub fn get_window_size(&self) -> (r: u64)
        requires
            self.wf(),
        ensures
            r == self.ws(),
    {
        self.window_size
    }

    /// The user tag: the latest report's tag, or the one set since.
    pub fn get_user_tag(&self) -> (r: u64)
        requires
            self.wf(),
        ensures
            r == self.tag(),
    {
        self.user_tag
    }

    /// The time summed over every report.
    pub fn get_global_time(&self) -> (r: u64)
        requires
            self.wf(),
        ensures
            r == total(self.history(), Quantity::Time),
    {
        self.time.global
    }

    /// The time summed over the window of the latest report, a completed one included.
    pub fn get_window_time(&self) -> (r: u64)
        requires
            self.wf(),
        ensures
            r == total(latest_window(self.history(), self.ws()), Quantity::Time),
            r <= total(self.history(), Quantity::Time),
    {
        self.latest.time_counters.window
    }

    /// The work summed over every report.
    pub fn get_global_work(&self) -> (r: u64)
        requires
            self.wf(),
        ensures
            r == total(self.history(), Quantity::Work),
    {
        self.work.global
    }

    /// The work summed over the window of the latest report, a completed one included.
    pub fn get_window_work(&self) -> (r: u64)
        requires
            self.wf(),
        ensures
            r == total(latest_window(self.history(), self.ws()), Quantity::Work),
            r <= total(self.history(), Quantity::Work),
    {
        self.latest.work_counters.window
    }

    /// The accuracy summed over every report.
    pub fn get_global_accuracy(&self) -> (r: u64)
        requires
            self.wf(),
        ensures
            r == total(self.history(), Quantity::Accuracy),
    {
        self.accuracy.global
    }

    /// The accuracy summed over the window of the latest report, a completed one included.
    pub fn get_window_accuracy(&self) -> (r: u64)
        requires
            self.wf(),
        ensures
            r == total(latest_window(self.history(), self.ws()), Quantity::Accuracy),
            r <= total(self.history(), Quantity::Accuracy),
    {
        self.latest.accuracy_counters.window
    }

    /// The energy summed over every report.
    pub fn get_global_energy(&self) -> (r: u64)
        requires
            self.wf(),
        ensures
            r == total(self.history(), Quantity::Energy),
    {
        self.energy.global
    }

    /// The energy summed over the window of the latest report, a completed one included.
    pub fn get_window_energy(&self) -> (r: u64)
        requires
            self.wf(),
        ensures
            r == total(latest_window(self.history(), self.ws()), Quantity::Energy),
            r <= total(self.history(), Quantity::Energy),
    {
        self.latest.energy_counters.window
    }

    /// Work done per unit of time over every report.
    pub fn get_global_perf(&self) -> (r: Ratio)
        requires
            self.wf(),
        ensures
            r == self.current().performance.global,
    {
        self.latest.performance.global
    }

    /// Work done per unit of time over the window of the latest report.
    pub fn get_window_perf(&self) -> (r: Ratio)
        requires
            self.wf(),
        ensures
            r == self.current().performance.window,
    {
        self.latest.performance.window
    }

    /// Work done per unit of time in the latest report alone.
    pub fn get_instant_perf(&self) -> (r: Ratio)
        requires
            self.wf(),
        ensures
            r == self.current().performance.instant,
    {
        self.latest.performance.instant
    }

    /// Accurate work per unit of work over every report.
    pub fn get_global_accuracy_rate(&self) -> (r: Ratio)
        requires
            self.wf(),
        ensures
            r == self.current().accuracy_rate.global,
    {
        self.latest.accuracy_rate.global
    }

    /// Accurate work per unit of work over the window of the latest report.
    pub fn get_window_accuracy_rate(&self) -> (r: Ratio)
        requires
            self.wf(),
        ensures
            r == self.current().accuracy_rate.window,
    {
        self.latest.accuracy_rate.window
    }

    /// Accurate work per unit of work in the latest report alone.
    pub fn get_instant_accuracy_rate(&self) -> (r: Ratio)
        requires
            self.wf(),
        ensures
            r == self.current().accuracy_rate.instant,
    {
        self.latest.accuracy_rate.instant
    }

    /// Energy spent per unit of time over every report.
    pub fn get_global_power(&self) -> (r: Ratio)
        requires
            self.wf(),
        ensures
            r == self.current().power.global,
    {
        self.latest.power.global
    }

    /// Energy spent per unit of time over the window of the latest report.
    pub fn get_window_power(&self) -> (r: Ratio)
        requires
            self.wf(),
        ensures
            r == self.current().power.window,
    {
        self.latest.power.window
    }

    /// Energy spent per unit of time in the latest report alone.
    pub fn get_instant_power(&self) -> (r: Ratio)
        requires
            self.wf(),
        ensures
            r == self.current().power.instant,
    {
        self.latest.power.instant
    }

    /// How many slots of the ring buffer hold a record: the reports so far,
    /// up to one window.
    pub fn get_buffer_index(&self) -> (r: u64)
        requires
            self.wf(),
        ensures
            r == self.valid_len(),
    {
        if self.beats < self.window_size {
            self.beats
        } else {
            self.window_size
        }
    }

    /// Replaces the user tag.
    pub fn set_user_tag(&mut self, tag: u64)
        requires
            old(self).wf(),
        ensures
            final(self).wf(),
            final(self).tag() == tag,
            final(self).history() == old(self).history(),
            final(self).ws() == old(self).ws(),
    {
        self.user_tag = tag;
    }

    /// The records of the most recent reports, at most one window of them,
    /// oldest first.
    pub fn snapshot_records(&self) -> (r: Vec<HeartbeatRecord>)
        requires
            self.wf(),
        ensures
            r@.len() == self.valid_len(),
            forall|k: int|
                0 <= k < r@.len() ==> #[trigger] r@[k] == record_of(
                    self.history(),
                    self.history().len() - r@.len() + k,
                    self.ws(),
                ),
            forall|k: int| 0 <= k < r@.len() ==> #[trigger] r@[k].id == self.history().len() - r@.len() + k,
    {
        let len: u64 = self.get_buffer_index();
        let first: u64 = self.beats - len;
        let mut out: Vec<HeartbeatRecord> = Vec::new();
        let mut k: u64 = 0;
        while k < len
            invariant
                self.wf(),
                len == self.valid_len(),
                first == self.history().len() - len,
                k <= len,
                out@.len() == k,
                forall|i: int|
                    0 <= i < k ==> #[trigger] out@[i] == record_of(
                        self.history(),
                        first + i,
                        self.ws(),
                    ),
            decreases len - k,
        {
            let slot = ((first + k) % self.window_size) as usize;
            out.push(self.buffer[slot]);
            k = k + 1;
        }
        proof {
            assert forall|i: int| 0 <= i < out@.len() implies #[trigger] out@[i].id == first + i by {
                lemma_record_id(self.history(), first + i, self.ws());
            }
        }
        out
    }
}

} // verus!