use vstd::prelude::*;
use crate::context::HeartbeatContext;
use crate::model::{Beat, completes_window, lemma_window_step};

verus! {

/// A context together with the handler that is told of each completed window.
pub struct Monitor<F> {
    hb: HeartbeatContext,
    callback: Option<F>,
    notified: Ghost<nat>,
}

/// Whether `f` may be called on any context.
pub open spec fn callable<F: Fn(&HeartbeatContext)>(f: F) -> bool {
    forall|c: &HeartbeatContext| call_requires(f, (c,))
}

impl<F: Fn(&HeartbeatContext)> Monitor<F> {
    /// The context that the reports go to.
    pub closed spec fn ctx(&self) -> HeartbeatContext {
        self.hb
    }

    /// Whether a handler was registered.
    pub closed spec fn has_callback(&self) -> bool {
        self.callback is Some
    }

    /// The handler, if one was registered.
    pub closed spec fn handler(&self) -> Option<F> {
        self.callback
    }

    /// The number of completed windows handed to the handler so far.
    pub closed spec fn notified(&self) -> nat {
        self.notified@
    }

    pub closed spec fn wf(&self) -> bool {
        &&& self.hb.wf()
        &&& self.callback matches Some(f) ==> callable(f)
        &&& self.notified@ == if self.callback is Some {
            self.hb.history().len() / (self.hb.ws() as nat)
        } else {
            0
        }
    }

    /// A well-formed monitor holds a well-formed context.
    pub proof fn lemma_ctx_wf(&self)
        requires
            self.wf(),
        ensures
            self.ctx().wf(),
    {
    }

    /// The handler, when there is one, has been handed each completed window:
    /// as many as whole windows were reported.
    pub proof fn lemma_notified(&self)
        requires
            self.wf(),
        ensures
            self.notified() == if self.has_callback() {
                self.ctx().history().len() / (self.ctx().ws() as nat)
            } else {
                0
            },
    {
    }

    /// A monitor over a fresh context of `window_size` slots; fails when
    /// `window_size` is zero.
    pub fn new(window_size: usize, callback: Option<F>) -> (r: Result<Monitor<F>, &'static str>)
        requires
            callback matches Some(f) ==> callable(f),
        ensures
            r is Err <==> window_size == 0,
            r matches Err(e) ==> e@ == "Failed to initialize heartbeat"@,
            r matches Ok(m) ==> {
                &&& m.wf()
                &&& m.ctx().ws() == window_size
                &&& m.ctx().history() == Seq::<Beat>::empty()
                &&& m.ctx().tag() == u64::MAX
                &&& m.has_callback() == (callback is Some)
                &&& m.handler() == callback
                &&& m.notified() == 0
            },
    {
        match HeartbeatContext::new(window_size) {
            Ok(hb) => Ok(Monitor { hb, callback, notified: Ghost(0) }),
            Err(e) => Err(e),
        }
    }

    /// The context, for reading.
    pub fn context(&self) -> (r: &HeartbeatContext)
        requires
            self.wf(),
        ensures
            *r == self.ctx(),
            r.wf(),
    {
        &self.hb
    }

    /// Hands one report to the context and, when it completes a window, calls
    /// the handler on the context before returning.
    pub fn beat(&mut self, b: Beat)
        requires
            old(self).wf(),
            old(self).ctx().admits(b),
        ensures
            final(self).wf(),
            final(self).ctx().ws() == old(self).ctx().ws(),
            final(self).ctx().history() == old(self).ctx().history().push(b),
            final(self).ctx().tag() == b.tag,
            final(self).has_callback() == old(self).has_callback(),
            final(self).handler() == old(self).handler(),
            completes_window(old(self).ctx().history().len() as int, old(self).ctx().ws()) ==> (
            final(self).handler() matches Some(f) ==> call_ensures(f, (&final(self).ctx(),), ())),
            final(self).notified() == if old(self).has_callback() && completes_window(
                old(self).ctx().history().len() as int,
                old(self).ctx().ws(),
            ) {
                old(self).notified() + 1
            } else {
                old(self).notified()
            },
    {
        proof {
            self.hb.lemma_ws_positive();
            lemma_window_step(self.hb.history().len() as int, self.hb.ws());
        }
        let complete = self.hb.report(
            b.tag,
            b.work,
            b.start_time,
            b.end_time,
            b.accuracy,
            b.start_energy,
            b.end_energy,
        );
        if complete {
            match &self.callback {
                Some(f) => {
                    f(&self.hb);
                    self.notified = Ghost(self.notified@ + 1);
                },
                None => {},
            }
        }
    }

    /// Replaces the user tag.
    pub fn set_user_tag(&mut self, tag: u64)
        requires
            old(self).wf(),
        ensures
            final(self).wf(),
            final(self).ctx().tag() == tag,
            final(self).ctx().history() == old(self).ctx().history(),
            final(self).ctx().ws() == old(self).ctx().ws(),
            final(self).has_callback() == old(self).has_callback(),
            final(self).handler() == old(self).handler(),
            final(self).notified() == old(self).notified(),
    {
        self.hb.set_user_tag(tag);
    }
}

} // verus!
