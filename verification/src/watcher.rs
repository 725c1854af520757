//! The block watcher's cursor: which heights to submit to the ASM worker when
//! a new block arrives.
//!
//! Blocks arrive from a notification stream that may skip heights (catch-up
//! after downtime, dropped messages). The watcher keeps a cursor, the next
//! height it expects; a block below the cursor is skipped, and a block above
//! it first has the skipped heights backfilled, so the ASM worker is never
//! handed a gap.

use vstd::prelude::*;

verus! {

/// What to do with a block received at some height.
pub enum WatchStep {
    /// The block is older than the cursor: skip it.
    Skip,
    /// Fetch and submit every height in `[backfill_from, backfill_to)`, in
    /// order, stopping at the first failure; then submit the received block.
    Submit { backfill_from: u64, backfill_to: u64 },
}

/// A failure while carrying out a [`WatchStep::Submit`].
pub enum WatchFailure {
    /// Fetching or submitting the backfilled block at `height` failed.
    Backfill { height: u64 },
    /// Submitting the received block failed.
    Received,
}

/// How the watcher reacts to a failure.
pub enum WatchReaction {
    /// Stop watching: going on would hand the ASM worker a gap.
    Stop,
    /// Log it and go on with the next notification; the cursor has already
    /// moved past the received block.
    PassOver,
}

/// The watcher's reaction to `failure`: a failed backfill stops it, so that
/// the ASM worker is never handed a block above a missing one; a failed
/// submission of the received block is passed over.
pub fn on_failure(failure: &WatchFailure) -> (reaction: WatchReaction)
    ensures
        failure is Backfill <==> reaction is Stop,
        failure is Received <==> reaction is PassOver,
{
    match failure {
        WatchFailure::Backfill { .. } => WatchReaction::Stop,
        WatchFailure::Received => WatchReaction::PassOver,
    }
}

/// The step taken for a block at height `received` when the cursor is `cursor`.
pub open spec fn watch_step(cursor: u64, received: u64) -> WatchStep {
    if received < cursor {
        WatchStep::Skip
    } else {
        WatchStep::Submit { backfill_from: cursor, backfill_to: received }
    }
}

/// The cursor after a block at height `received` when the cursor is `cursor`.
pub open spec fn watch_next_cursor(cursor: u64, received: u64) -> u64 {
    if received < cursor {
        cursor
    } else {
        (received + 1) as u64
    }
}

/// The heights `from, from + 1, ..., to - 1`.
pub open spec fn height_range(from: int, to: int) -> Seq<int> {
    Seq::new(if from <= to { (to - from) as nat } else { 0 }, |i: int| from + i)
}

/// The heights submitted, in order, for a block at height `received` when the
/// cursor is `cursor`: the backfilled heights, then the received one.
pub open spec fn submitted_heights(cursor: u64, received: u64) -> Seq<int> {
    match watch_step(cursor, received) {
        WatchStep::Skip => Seq::empty(),
        WatchStep::Submit { backfill_from, backfill_to } =>
            height_range(backfill_from as int, backfill_to as int).push(received as int),
    }
}

/// The cursor after the blocks at `heights` arrived, in order, from `start`.
pub open spec fn cursor_after(start: u64, heights: Seq<u64>) -> u64
    decreases heights.len(),
{
    if heights.len() == 0 {
        start
    } else {
        watch_next_cursor(cursor_after(start, heights.drop_last()), heights.last())
    }
}

/// Every height submitted, in order, while the blocks at `heights` arrived
/// from `start`.
pub open spec fn submitted_after(start: u64, heights: Seq<u64>) -> Seq<int>
    decreases heights.len(),
{
    if heights.len() == 0 {
        Seq::empty()
    } else {
        submitted_after(start, heights.drop_last()) + submitted_heights(
            cursor_after(start, heights.drop_last()),
            heights.last(),
        )
    }
}

/// The block watcher's position in the chain.
pub struct BlockWatcher {
    cursor: u64,
}

impl BlockWatcher {
    /// The next height the watcher expects.
    pub closed spec fn spec_cursor(&self) -> u64 {
        self.cursor
    }

    /// A watcher that expects `start_height` next.
    pub fn new(start_height: u64) -> (w: BlockWatcher)
        ensures
            w.spec_cursor() == start_height,
    {
        BlockWatcher { cursor: start_height }
    }

    /// The next height the watcher expects.
    pub fn cursor(&self) -> (c: u64)
        ensures
            c == self.spec_cursor(),
    {
        self.cursor
    }

    /// Decides what to do with a block received at `received_height`, and
    /// moves the cursor past it when it is not skipped.
    pub fn on_block(&mut self, received_height: u64) -> (step: WatchStep)
        requires
            received_height < u64::MAX,
        ensures
            step == watch_step(old(self).spec_cursor(), received_height),
            final(self).spec_cursor() == watch_next_cursor(old(self).spec_cursor(), received_height),
            received_height < old(self).spec_cursor() ==> {
                &&& step is Skip
                &&& final(self).spec_cursor() == old(self).spec_cursor()
            },
            received_height >= old(self).spec_cursor() ==> {
                &&& step == (WatchStep::Submit {
                    backfill_from: old(self).spec_cursor(),
                    backfill_to: received_height,
                })
                &&& final(self).spec_cursor() == received_height + 1
            },
    {
        if received_height < self.cursor {
            return WatchStep::Skip;
        }
        let step = WatchStep::Submit { backfill_from: self.cursor, backfill_to: received_height };
        self.cursor = received_height + 1;
        step
    }
}

/// Only a block below the cursor is skipped. Every block at or above it,
/// however far above, is submitted after backfilling every height from the
/// cursor up to it, and the cursor moves just past it; a block below the
/// cursor leaves the cursor where it is.
pub proof fn lemma_only_blocks_below_cursor_are_skipped(cursor: u64, received: u64)
    requires
        received < u64::MAX,
    ensures
        watch_step(cursor, received) is Skip <==> received < cursor,
        received >= cursor ==> watch_step(cursor, received) == (WatchStep::Submit {
            backfill_from: cursor,
            backfill_to: received,
        }),
        received >= cursor ==> watch_next_cursor(cursor, received) == received + 1,
        received < cursor ==> watch_next_cursor(cursor, received) == cursor,
        received >= cursor ==> submitted_heights(cursor, received) =~= height_range(cursor as int, received + 1),
{
    if received >= cursor {
        assert(height_range(cursor as int, received as int).push(received as int)
            =~= height_range(cursor as int, received + 1));
    }
}

/// Whatever heights the blocks arrive at, the heights submitted are exactly
/// the heights from the start height up to the cursor, each once and in
/// increasing order: the ASM worker is never handed a gap nor a repeat.
/// This speaks of the submissions the steps call for: a failed backfill
/// stops the watcher ([`on_failure`]), so every block handed over before the
/// stop lies in this run; a received block whose submission failed is passed
/// over and its height left out.
pub proof fn lemma_submitted_heights_are_contiguous(start: u64, heights: Seq<u64>)
    requires
        forall|i: int| 0 <= i < heights.len() ==> heights[i] < u64::MAX,
    ensures
        start <= cursor_after(start, heights),
        submitted_after(start, heights) =~= height_range(start as int, cursor_after(start, heights) as int),
    decreases heights.len(),
{
    if heights.len() > 0 {
        let prefix = heights.drop_last();
        lemma_submitted_heights_are_contiguous(start, prefix);
        let c = cursor_after(start, prefix);
        let h = heights.last();
        if h >= c {
            assert(height_range(start as int, c as int) + height_range(c as int, h as int).push(h as int)
                =~= height_range(start as int, h + 1));
        } else {
            assert(height_range(start as int, c as int) + Seq::<int>::empty() =~= height_range(start as int, c as int));
        }
    }
}

} // verus!
