use vstd::prelude::*;
use crate::context::HeartbeatContext;
use crate::model::{Beat, Quantity, completes_window, latest_window, record_of, total};
use crate::monitor::{Monitor, callable};
use crate::record::{HeartbeatRecord, Ratio};

verus! {

/// A monitor that tracks work, time, performance and accuracy.
pub struct HeartbeatAcc<F> {
    m: Monitor<F>,
}

impl<F: Fn(&HeartbeatContext)> HeartbeatAcc<F> {
    /// The context that the reports go to.
    pub closed spec fn ctx(&self) -> HeartbeatContext {
        self.m.ctx()
    }

    /// Whether a handler was registered.
    pub closed spec fn has_callback(&self) -> bool {
        self.m.has_callback()
    }

    /// The handler, if one was registered.
    pub closed spec fn handler(&self) -> Option<F> {
        self.m.handler()
    }

    /// The number of completed windows handed to the handler so far.
    pub closed spec fn notified(&self) -> nat {
        self.m.notified()
    }

    pub closed spec fn wf(&self) -> bool {
        self.m.wf()
    }

    /// A well-formed monitor holds a well-formed context, so the context's
    /// facts (window sums within global sums among them) hold of it.
    pub proof fn lemma_ctx_wf(&self)
        requires
            self.wf(),
        ensures
            self.ctx().wf(),
    {
        self.m.lemma_ctx_wf();
    }

    /// The handler, when there is one, has been handed each completed window:
    /// as many as whole windows were reported.
    pub proof fn lemma_notified(&self)
        requires
            self.wf(),
        ensures
            self.notified() == if self.has_callback() {
                self.ctx().history().len() / (self.ctx().ws() as nat)
            } else {
                0
            },
    {
        self.m.lemma_notified();
    }

    /// A monitor with a buffer of `window_size` records and the given handler
    /// for completed windows; fails when `window_size` is zero.
    pub fn new(window_size: usize, hwc_callback: Option<F>) -> (r: Result<HeartbeatAcc<F>, &'static str>)
        requires
            hwc_callback matches Some(f) ==> callable(f),
        ensures
            r is Err <==> window_size == 0,
            r matches Err(e) ==> e@ == "Failed to initialize heartbeat"@,
            r matches Ok(m) ==> {
                &&& m.wf()
                &&& m.ctx().ws() == window_size
                &&& m.ctx().history() == Seq::<Beat>::empty()
                &&& m.ctx().tag() == u64::MAX
                &&& m.has_callback() == (hwc_callback is Some)
                &&& m.handler() == hwc_callback
                &&& m.notified() == 0
            },
    {
        match Monitor::new(window_size, hwc_callback) {
            Ok(m) => Ok(HeartbeatAcc { m }),
            Err(e) => Err(e),
        }
    }

    /// Issues a heartbeat: one report of `work` done from `start_time` to
    /// `end_time`. When it completes a window, the handler is called before
    /// this returns.
    pub fn heartbeat(&mut self, tag: u64, work: u64, start_time: u64, end_time: u64, accuracy: u64)
        requires
            old(self).wf(),
            old(self).ctx().admits(Beat { tag, work, start_time, end_time, accuracy: accuracy, start_energy: 0, end_energy: 0 }),
        ensures
            final(self).wf(),
            final(self).ctx().ws() == old(self).ctx().ws(),
            final(self).ctx().history() == old(self).ctx().history().push(
                Beat { tag, work, start_time, end_time, accuracy: accuracy, start_energy: 0, end_energy: 0 },
            ),
            final(self).ctx().tag() == tag,
            final(self).has_callback() == old(self).has_callback(),
            final(self).handler() == old(self).handler(),
            completes_window(old(self).ctx().history().len() as int, old(self).ctx().ws()) ==> (
            final(self).handler() matches Some(f) ==> call_ensures(f, (&final(self).ctx(),), ())),
            final(self).notified() == if old(self).has_callback() && completes_window(
                old(self).ctx().history().len() as int,
                old(self).ctx().ws(),
            ) {
                old(self).notified() + 1
            } else {
                old(self).notified()
            },
    {
        self.m.beat(Beat { tag, work, start_time, end_time, accuracy: accuracy, start_energy: 0, end_energy: 0 });
    }

    /// The context, for reading.
    pub fn context(&self) -> (r: &HeartbeatContext)
        requires
            self.wf(),
        ensures
            *r == self.ctx(),
            r.wf(),
    {
        self.m.context()
    }

    /// Replaces the user tag.
    pub fn set_user_tag(&mut self, tag: u64)
        requires
            old(self).wf(),
        ensures
            final(self).wf(),
            final(self).ctx().tag() == tag,
            final(self).ctx().history() == old(self).ctx().history(),
            final(self).ctx().ws() == old(self).ctx().ws(),
            final(self).has_callback() == old(self).has_callback(),
            final(self).handler() == old(self).handler(),
            final(self).notified() == old(self).notified(),
    {
        self.m.set_user_tag(tag);
    }

    /// The records of the most recent reports, at most one window of them,
    /// oldest first.
    pub fn snapshot_records(&self) -> (r: Vec<HeartbeatRecord>)
        requires
            self.wf(),
        ensures
            r@.len() == self.ctx().valid_len(),
            forall|k: int|
                0 <= k < r@.len() ==> #[trigger] r@[k] == record_of(
                    self.ctx().history(),
                    self.ctx().history().len() - r@.len() + k,
                    self.ctx().ws(),
                ),
            forall|k: int|
                0 <= k < r@.len() ==> #[trigger] r@[k].id == self.ctx().history().len() - r@.len() + k,
    {
        self.m.context().snapshot_records()
    }

    /// The number of reports that make up a window.
    pub fn get_window_size(&self) -> (r: u64)
        requires
            self.wf(),
        ensures
            r == self.ctx().ws(),
    {
        self.m.context().get_window_size()
    }

    /// The user tag: the latest report's tag, or the one set since.
    pub fn get_user_tag(&self) -> (r: u64)
        requires
            self.wf(),
        ensures
            r == self.ctx().tag(),
    {
        self.m.context().get_user_tag()
    }

    /// The time summed over every report.
    pub fn get_global_time(&self) -> (r: u64)
        requires
            self.wf(),
        ensures
            r == total(self.ctx().history(), Quantity::Time),
    {
        self.m.context().get_global_time()
    }

    /// The time summed over the window of the latest report, a completed one included.
    pub fn get_window_time(&self) -> (r: u64)
        requires
            self.wf(),
        ensures
            r == total(latest_window(self.ctx().history(), self.ctx().ws()), Quantity::Time),
            r <= total(self.ctx().history(), Quantity::Time),
    {
        self.m.context().get_window_time()
    }

    /// The work summed over every report.
    pub fn get_global_work(&self) -> (r: u64)
        requires
            self.wf(),
        ensures
            r == total(self.ctx().history(), Quantity::Work),
    {
        self.m.context().get_global_work()
    }

    /// The work summed over the window of the latest report, a completed one included.
    pub fn get_window_work(&self) -> (r: u64)
        requires
            self.wf(),
        ensures
            r == total(latest_window(self.ctx().history(), self.ctx().ws()), Quantity::Work),
            r <= total(self.ctx().history(), Quantity::Work),
    {
        self.m.context().get_window_work()
    }

    /// Work done per unit of time over every report.
    pub fn get_global_perf(&self) -> (r: Ratio)
        requires
            self.wf(),
        ensures
            r == self.ctx().current().performance.global,
    {
        self.m.context().get_global_perf()
    }

    /// Work done per unit of time over the window of the latest report.
    pub fn get_window_perf(&self) -> (r: Ratio)
        requires
            self.wf(),
        ensures
            r == self.ctx().current().performance.window,
    {
        self.m.context().get_window_perf()
    }

    /// Work done per unit of time in the latest report alone.
    pub fn get_instant_perf(&self) -> (r: Ratio)
        requires
            self.wf(),
        ensures
            r == self.ctx().current().performance.instant,
    {
        self.m.context().get_instant_perf()
    }

    /// The accuracy summed over every report.
    pub fn get_global_accuracy(&self) -> (r: u64)
        requires
            self.wf(),
        ensures
            r == total(self.ctx().history(), Quantity::Accuracy),
    {
        self.m.context().get_global_accuracy()
    }

    /// The accuracy summed over the window of the latest report, a completed one included.
    pub fn get_window_accuracy(&self) -> (r: u64)
        requires
            self.wf(),
        ensures
            r == total(latest_window(self.ctx().history(), self.ctx().ws()), Quantity::Accuracy),
            r <= total(self.ctx().history(), Quantity::Accuracy),
    {
        self.m.context().get_window_accuracy()
    }

    /// Accurate work per unit of work over every report.
    pub fn get_global_accuracy_rate(&self) -> (r: Ratio)
        requires
            self.wf(),
        ensures
            r == self.ctx().current().accuracy_rate.global,
    {
        self.m.context().get_global_accuracy_rate()
    }

    /// Accurate work per unit of work over the window of the latest report.
    pub fn get_window_accuracy_rate(&self) -> (r: Ratio)
        requires
            self.wf(),
        ensures
            r == self.ctx().current().accuracy_rate.window,
    {
        self.m.context().get_window_accuracy_rate()
    }

    /// Accurate work per unit of work in the latest report alone.
    pub fn get_instant_accuracy_rate(&self) -> (r: Ratio)
        requires
            self.wf(),
        ensures
            r == self.ctx().current().accuracy_rate.instant,
    {
        self.m.context().get_instant_accuracy_rate()
    }
}

} // verus!
