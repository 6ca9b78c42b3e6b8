//! The batch sequencer: an ordered list of items launched strictly one
//! after another, each outcome recorded under its item's identifier, with
//! an optional pacing pause between consecutive launches. The caller
//! drives the run — resolve and launch the current item, record its
//! outcome, pause when asked — and the suspension itself stays with the
//! caller so that other work can progress while a batch is between items.

use vstd::prelude::*;

verus! {

use crate::model::{BatchLaunchResult, BatchResultView, LaunchResult, ProgramItem};

impl DeepView for BatchLaunchResult {
    type V = BatchResultView;

    open spec fn deep_view(&self) -> BatchResultView {
        self.view()
    }
}

/// Does a pause follow the launch just recorded? `launched` counts the
/// items recorded so far, `n` is the batch length: the sequencer pauses
/// only between consecutive launches — never after the last item — and
/// only for a positive delay.
pub open spec fn pause_now(launched: int, n: int, delay_ms: u64) -> bool {
    launched < n && delay_ms > 0
}

/// With a zero delay the sequencer never suspends between launches; with
/// a positive delay it suspends exactly after each item but the last —
/// `n - 1` times in an `n`-item batch — and each pause asks for the full
/// configured delay (see `BatchRun::pause_ms`).
pub proof fn lemma_pause_schedule(n: int, delay_ms: u64)
    ensures
        delay_ms == 0 ==> forall|launched: int| !pause_now(launched, n, delay_ms),
        delay_ms > 0 ==> forall|launched: int|
            1 <= launched <= n ==> (pause_now(launched, n, delay_ms) <==> launched < n),
{
}

/// One batch launch in progress: the items still to launch, the pacing
/// delay, and the outcomes recorded so far, in input order.
pub struct BatchRun {
    items: Vec<ProgramItem>,
    delay_ms: u64,
    next: usize,
    results: Vec<BatchLaunchResult>,
}

impl BatchRun {
    /// The batch's items, in input order.
    pub closed spec fn items_model(self) -> Seq<ProgramItem> {
        self.items@
    }

    /// The configured inter-launch delay in milliseconds.
    pub closed spec fn delay(self) -> u64 {
        self.delay_ms
    }

    /// How many items have been launched and recorded so far.
    pub closed spec fn launched(self) -> int {
        self.next as int
    }

    /// The outcomes recorded so far, in input order.
    pub closed spec fn recorded(self) -> Seq<BatchResultView> {
        self.results.deep_view()
    }

    /// A run is well-formed when it has recorded exactly one outcome per
    /// launched item, each tagged with that item's identifier.
    pub closed spec fn wf(self) -> bool {
        &&& self.next <= self.items@.len()
        &&& self.results@.len() == self.next as int
        &&& forall|i: int|
            0 <= i < self.next as int ==> self.results@[i].id@ == self.items@[i].id@
    }

    /// Begins a batch over `items` with the given pacing delay.
    pub fn new(items: Vec<ProgramItem>, delay_ms: u64) -> (r: BatchRun)
        ensures
            r.wf(),
            r.items_model() == items@,
            r.delay() == delay_ms,
            r.launched() == 0,
            r.recorded() == Seq::<BatchResultView>::empty(),
    {
        let r = BatchRun { items, delay_ms, next: 0, results: Vec::new() };
        proof {
            assert(r.recorded() =~= Seq::<BatchResultView>::empty());
        }
        r
    }

    /// Has every item been launched?
    pub fn is_done(&self) -> (r: bool)
        ensures
            r == (self.launched() == self.items_model().len()),
    {
        self.next == self.items.len()
    }

    /// The item to launch next.
    pub fn current_item(&self) -> (r: &ProgramItem)
        requires
            self.launched() < self.items_model().len(),
        ensures
            *r == self.items_model()[self.launched()],
    {
        &self.items[self.next]
    }

    /// Records the outcome of launching the current item, tagged with
    /// that item's identifier, and moves on to the next. A failed item
    /// never stops the run: the next item is always attempted.
    pub fn record(&mut self, outcome: LaunchResult)
        requires
            old(self).wf(),
            old(self).launched() < old(self).items_model().len(),
        ensures
            final(self).wf(),
            final(self).items_model() == old(self).items_model(),
            final(self).delay() == old(self).delay(),
            final(self).launched() == old(self).launched() + 1,
            final(self).recorded() == old(self).recorded().push(
                BatchResultView {
                    id: old(self).items_model()[old(self).launched()].id@,
                    success: outcome.success,
                    error: outcome@.error,
                },
            ),
    {
        let n = self.items.len();
        let id = self.items[self.next].id.clone();
        let LaunchResult { success, error } = outcome;
        self.results.push(BatchLaunchResult { id, success, error });
        proof {
            assert(self.next < n);
        }
        self.next += 1;
        proof {
            assert(self.recorded() =~~= old(self).recorded().push(
                BatchResultView {
                    id: old(self).items_model()[old(self).launched()].id@,
                    success: outcome.success,
                    error: outcome@.error,
                },
            ));
        }
    }

    /// Does a pacing pause follow the launch just recorded?
    pub fn should_pause(&self) -> (r: bool)
        ensures
            r == pause_now(self.launched(), self.items_model().len() as int, self.delay()),
    {
        self.next < self.items.len() && self.delay_ms > 0
    }

    /// How long each pacing pause suspends, in milliseconds.
    pub fn pause_ms(&self) -> (r: u64)
        ensures
            r == self.delay(),
    {
        self.delay_ms
    }

    /// Ends the run: exactly one outcome per input item, in input order,
    /// each tagged with its item's identifier positionally.
    pub fn finish(self) -> (r: Vec<BatchLaunchResult>)
        requires
            self.wf(),
            self.launched() == self.items_model().len(),
        ensures
            r.deep_view() == self.recorded(),
            r@.len() == self.items_model().len(),
            forall|i: int| 0 <= i < r@.len() ==> r@[i].id@ == self.items_model()[i].id@,
    {
        self.results
    }
}

} // verus!
