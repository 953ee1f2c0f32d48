//! The sync orchestrator's decisions, as a small state machine over one
//! cycle. A cycle is created from the batch a fetch returned (newest-first,
//! the feed's contract), hands activities out for publishing oldest-first,
//! and names the watermark to persist only once the whole batch went out.
//! The caller performs the fetching and publishing and reports each outcome
//! back; everything the cycle decides is proved here.
use vstd::prelude::*;

use crate::activity::{Activity, ActivityView};

verus! {

/// The spec-level state of one cycle: the fetched batch (newest-first), how
/// many of its activities were published so far, and whether a publish
/// failed.
#[verifier::ext_equal]
pub struct SyncCycleView {
    pub batch: Seq<ActivityView>,
    pub published: nat,
    pub failed: bool,
}

/// The order in which a cycle publishes a batch: the reverse of the fetch
/// order, so that the sink observes events in real-world sequence.
pub open spec fn publish_order(batch: Seq<ActivityView>) -> Seq<ActivityView> {
    batch.reverse()
}

/// The activity a cycle hands out next: the oldest not yet published, since
/// the batch is newest-first; none once the batch is drained or a publish
/// failed.
pub open spec fn spec_next(c: SyncCycleView) -> Option<ActivityView> {
    if !c.failed && c.published < c.batch.len() {
        Some(c.batch[c.batch.len() - 1 - c.published])
    } else {
        None
    }
}

/// The watermark a cycle persists at its end: the creation time of the
/// newest activity, exactly when the whole batch was published; nothing
/// after an empty fetch or a failed publish.
pub open spec fn spec_commit(c: SyncCycleView) -> Option<i64> {
    if !c.failed && c.batch.len() > 0 && c.published == c.batch.len() {
        Some(c.batch[0].created_at)
    } else {
        None
    }
}

/// Whether a batch is sorted newest-first, the order the feed contract
/// promises.
pub open spec fn sorted_newest_first(batch: Seq<ActivityView>) -> bool {
    forall|i: int, j: int|
        0 <= i <= j < batch.len() ==> #[trigger] batch[i].created_at >= #[trigger] batch[
            j
        ].created_at
}

/// One sync cycle in progress.
pub struct SyncCycle {
    batch: Vec<Activity>,
    published: usize,
    failed: bool,
}

impl View for SyncCycle {
    type V = SyncCycleView;

    closed spec fn view(&self) -> SyncCycleView {
        SyncCycleView {
            batch: self.batch.deep_view(),
            published: self.published as nat,
            failed: self.failed,
        }
    }
}

impl SyncCycle {
    /// Starts a cycle over a fetched batch, given newest-first.
    pub fn new(batch: Vec<Activity>) -> (c: SyncCycle)
        ensures
            c@.batch == batch.deep_view(),
            c@.published == 0,
            !c@.failed,
    {
        SyncCycle { batch, published: 0, failed: false }
    }

    /// Whether the cycle still has an activity to publish.
    pub fn in_progress(&self) -> (r: bool)
        ensures
            r == (spec_next(self@) is Some),
    {
        !self.failed && self.published < self.batch.len()
    }

    /// The next activity to publish, oldest-first; `None` once the batch is
    /// drained or a publish failed.
    pub fn next_to_publish(&self) -> (r: Option<&Activity>)
        ensures
            r is Some <==> spec_next(self@) is Some,
            r matches Some(a) ==> spec_next(self@) == Some(a@),
    {
        if !self.failed && self.published < self.batch.len() {
            Some(&self.batch[self.batch.len() - 1 - self.published])
        } else {
            None
        }
    }

    /// Records that the activity handed out last was delivered.
    pub fn record_published(&mut self)
        requires
            spec_next(old(self)@) is Some,
        ensures
            final(self)@.batch == old(self)@.batch,
            final(self)@.published == old(self)@.published + 1,
            final(self)@.failed == old(self)@.failed,
    {
        let n = self.batch.len();
        proof {
            // the batch is untouched, so `published` stays below its length
            assert(self@.batch.len() == n);
        }
        self.published = self.published + 1;
    }

    /// Records that a publish failed: the cycle stops handing activities
    /// out and will not name a watermark to persist.
    pub fn record_failure(&mut self)
        ensures
            final(self)@.batch == old(self)@.batch,
            final(self)@.published == old(self)@.published,
            final(self)@.failed,
    {
        self.failed = true;
    }

    /// The watermark to persist at the end of the cycle, if any.
    pub fn commit_timestamp(&self) -> (r: Option<i64>)
        ensures
            r == spec_commit(self@),
    {
        if !self.failed && self.batch.len() > 0 && self.published == self.batch.len() {
            Some(self.batch[0].created_at)
        } else {
            None
        }
    }
}

/// Law: what a cycle hands out follows `publish_order`: its `k`-th publish
/// is the `k`-th element of the reversed batch.
pub proof fn lemma_next_follows_publish_order(c: SyncCycleView)
    requires
        !c.failed,
        c.published < c.batch.len(),
    ensures
        spec_next(c) == Some(publish_order(c.batch)[c.published as int]),
{
}

/// Law: over a batch sorted newest-first, a cycle publishes in chronological
/// order, and the last activity it publishes is the newest one — the one
/// whose creation time becomes the watermark.
pub proof fn lemma_cycle_publishes_chronologically(batch: Seq<ActivityView>)
    requires
        sorted_newest_first(batch),
    ensures
        forall|i: int, j: int|
            0 <= i <= j < batch.len() ==> #[trigger] publish_order(batch)[i].created_at
                <= #[trigger] publish_order(batch)[j].created_at,
        batch.len() > 0 ==> publish_order(batch).last() == batch[0],
{
}

/// Law: a cycle that published its whole batch persists the creation time
/// of the newest activity, the first of the fetch order.
pub proof fn lemma_commit_after_full_batch(c: SyncCycleView)
    requires
        !c.failed,
        c.batch.len() > 0,
        c.published == c.batch.len(),
    ensures
        spec_commit(c) == Some(c.batch[0].created_at),
{
}

/// Law: an empty fetch makes the cycle a no-op — nothing is handed out to
/// publish and no watermark write happens.
pub proof fn lemma_empty_cycle_is_noop(c: SyncCycleView)
    requires
        c.batch.len() == 0,
    ensures
        spec_next(c) is None,
        spec_commit(c) is None,
{
}

/// Law: after a failed publish the cycle attempts nothing further and the
/// watermark write is not attempted.
pub proof fn lemma_failed_cycle_stops(c: SyncCycleView)
    requires
        c.failed,
    ensures
        spec_next(c) is None,
        spec_commit(c) is None,
{
}

/// Law: no watermark is persisted while part of the batch is unpublished.
pub proof fn lemma_no_commit_before_full_batch(c: SyncCycleView)
    requires
        c.published < c.batch.len(),
    ensures
        spec_commit(c) is None,
{
}

/// Law: the watermark never moves backwards. The feed returns only
/// activities strictly newer than the lower bound, so whatever a cycle over
/// such a batch commits is strictly above the old watermark.
pub proof fn lemma_watermark_monotone(c: SyncCycleView, w: i64)
    requires
        forall|i: int| 0 <= i < c.batch.len() ==> #[trigger] c.batch[i].created_at > w,
    ensures
        spec_commit(c) matches Some(t) ==> t > w,
{
}

} // verus!
