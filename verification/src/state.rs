//! In-memory state of the Moho worker.
//!
//! The worker is a deterministic forward-only fold over the ASM commit stream:
//! it holds the most recently derived Moho state and the block it is anchored
//! to, and each incoming commitment chains forward from that. Whatever block
//! sequence the ASM worker commits is the sequence the Moho worker folds.

use vstd::prelude::*;

use crate::errors::{MohoWorkerError, MohoWorkerResult};
use crate::l1::L1BlockCommitment;
use crate::traits::{latest_after_store, MohoStateStore, AsmStateProvider, MohoWorkerContext};

verus! {

/// How an incoming commitment relates to the block the worker is anchored to.
pub enum CommitKind {
    /// At or below the current height: already folded, ignored.
    Stale,
    /// Exactly one above the current height: the next block to fold.
    Next,
    /// More than one above the current height: a gap the worker cannot bridge.
    Gap,
}

/// Classifies a commitment at height `got` against the current height `cur`.
pub open spec fn commit_kind(cur: u32, got: u32) -> CommitKind {
    if got <= cur {
        CommitKind::Stale
    } else if got == cur + 1 {
        CommitKind::Next
    } else {
        CommitKind::Gap
    }
}

/// The height the worker is anchored at after a commitment at `got` arrives
/// at height `cur`, when reading and persisting succeed (see
/// [`MohoWorkerServiceState::process`]).
pub open spec fn height_after(cur: u32, got: u32) -> u32 {
    if commit_kind(cur, got) is Next {
        got
    } else {
        cur
    }
}

/// The height after the commitments at `heights` arrive, in order, from `cur`.
pub open spec fn height_after_stream(cur: u32, heights: Seq<u32>) -> u32
    decreases heights.len(),
{
    if heights.len() == 0 {
        cur
    } else {
        height_after(height_after_stream(cur, heights.drop_last()), heights.last())
    }
}

/// How many of the commitments at `heights`, arriving in order from `cur`,
/// are folded.
pub open spec fn folded_in_stream(cur: u32, heights: Seq<u32>) -> nat
    decreases heights.len(),
{
    if heights.len() == 0 {
        0
    } else {
        folded_in_stream(cur, heights.drop_last()) + if commit_kind(
            height_after_stream(cur, heights.drop_last()),
            heights.last(),
        ) is Next {
            1nat
        } else {
            0nat
        }
    }
}

/// The fold only moves forward, one block per folded commitment: whatever
/// commitments arrive, the height reached is the starting height plus the
/// number of commitments folded.
pub proof fn lemma_fold_moves_one_block_per_commit(cur: u32, heights: Seq<u32>)
    ensures
        height_after_stream(cur, heights) == cur + folded_in_stream(cur, heights),
    decreases heights.len(),
{
    if heights.len() > 0 {
        lemma_fold_moves_one_block_per_commit(cur, heights.drop_last());
    }
}

/// A run of commitments for the consecutive heights above the current block
/// is folded entirely, reaching the last of them.
pub proof fn lemma_contiguous_commits_all_fold(cur: u32, heights: Seq<u32>)
    requires
        forall|i: int| 0 <= i < heights.len() ==> heights[i] == cur + 1 + i,
    ensures
        folded_in_stream(cur, heights) == heights.len(),
        height_after_stream(cur, heights) == cur + heights.len(),
    decreases heights.len(),
{
    if heights.len() > 0 {
        let prefix = heights.drop_last();
        assert forall|i: int| 0 <= i < prefix.len() implies prefix[i] == cur + 1 + i by {
            assert(prefix[i] == heights[i]);
        }
        lemma_contiguous_commits_all_fold(cur, prefix);
    }
}

/// Once a commitment is folded, it and every commitment at or below its
/// height are stale: re-emitting them changes nothing.
pub proof fn lemma_folded_commit_replays_stale(cur: u32, got: u32, replay: u32)
    requires
        commit_kind(cur, got) is Next,
        replay <= got,
    ensures
        commit_kind(height_after(cur, got), replay) is Stale,
{
}

/// The block the fold is anchored to and how many blocks were folded since
/// launch. Kept together so both change in one assignment.
struct FoldTip {
    block: L1BlockCommitment,
    processed: u64,
}

/// The fold itself: the transition, the current Moho state, the block it is
/// anchored to and the count of folds since launch.
struct FoldCore<M, F> {
    fold: F,
    cur_moho: M,
    tip: FoldTip,
    /// Height of the block the worker launched from.
    origin: Ghost<int>,
}

impl<M, F> FoldCore<M, F> {
    /// Every commit folded since launch moved the anchor up by exactly one block.
    #[verifier::type_invariant]
    spec fn inv(self) -> bool {
        &&& 0 <= self.origin@
        &&& self.tip.block.height == self.origin@ + self.tip.processed
    }
}

/// In-memory state of the Moho worker.
///
/// `F` is the Moho state transition: from the current Moho state, the anchor
/// state committed for the next block and that block's logs, it derives the
/// Moho state of the next block.
pub struct MohoWorkerServiceState<W: MohoWorkerContext, F> {
    /// Context for reading ASM anchor states and persisting Moho states.
    context: W,
    /// The transition, the most recently derived (or genesis-seeded, or
    /// resumed) Moho state, and the block it is anchored to.
    core: FoldCore<W::MohoState, F>,
}

impl<W: MohoWorkerContext, F> MohoWorkerServiceState<W, F> {
    /// The block the worker's current Moho state is anchored to.
    pub closed spec fn spec_cur_block(&self) -> L1BlockCommitment {
        self.core.tip.block
    }

    /// The number of commits folded since launch.
    pub closed spec fn spec_processed(&self) -> u64 {
        self.core.tip.processed
    }

    /// The current Moho state.
    pub closed spec fn spec_cur_moho(&self) -> W::MohoState {
        self.core.cur_moho
    }

    /// The Moho state transition the worker folds.
    pub closed spec fn spec_fold(&self) -> F {
        self.core.fold
    }

    /// The worker's context.
    pub closed spec fn spec_context(&self) -> W {
        self.context
    }

    /// The height of the block the worker launched from (resumed or seeded).
    pub closed spec fn spec_origin(&self) -> int {
        self.core.origin@
    }

    /// The context's store reports the worker's current block and Moho state
    /// as its latest entry: a worker launched over the same store resumes
    /// exactly there.
    pub open spec fn spec_persisted(&self) -> bool {
        self.spec_context().spec_latest() == Some((self.spec_cur_block(), self.spec_cur_moho()))
    }

    /// The block the worker has most recently committed a Moho state for.
    pub fn cur_block(&self) -> (b: L1BlockCommitment)
        ensures
            b == self.spec_cur_block(),
    {
        self.core.tip.block
    }

    /// Number of ASM commits folded since launch; the genesis seed or the
    /// resumed state is not counted.
    pub fn processed(&self) -> (n: u64)
        ensures
            n == self.spec_processed(),
            n == self.spec_cur_block().height - self.spec_origin(),
    {
        proof {
            use_type_invariant(&self.core);
        }
        self.core.tip.processed
    }

    /// The context the worker reads from and persists through.
    pub fn context(&self) -> (c: &W)
        ensures
            *c == self.spec_context(),
    {
        &self.context
    }
}

impl<W, F> MohoWorkerServiceState<W, F> where
    W: MohoWorkerContext,
    F: Fn(&W::MohoState, &W::AnchorState, &Vec<W::LogEntry>) -> W::MohoState,
 {
    /// Creates the service state, resuming from the latest stored Moho state or
    /// seeding the genesis entry when the store is empty.
    ///
    /// Genesis is seeded from the ASM anchor state already committed for
    /// `genesis_block`: `seed` turns `asm_predicate` and that anchor state into
    /// the genesis Moho state, which is stored under `genesis_block` before the
    /// worker starts. What follows the read of the latest entry is
    /// [`Self::from_latest`].
    pub fn new<P, G>(
        context: W,
        genesis_block: L1BlockCommitment,
        asm_predicate: P,
        seed: G,
        fold: F,
    ) -> (r: MohoWorkerResult<Self>) where G: FnOnce(P, &W::AnchorState) -> W::MohoState
        requires
            forall|a: &W::AnchorState| seed.requires((asm_predicate, a)),
            forall|m: &W::MohoState, a: &W::AnchorState, l: &Vec<W::LogEntry>|
                #[trigger] fold.requires((m, a, l)),
        ensures
            r matches Ok(s) ==> {
                &&& s.spec_processed() == 0
                &&& s.spec_origin() == s.spec_cur_block().height
                &&& s.spec_fold() == fold
                &&& s.spec_persisted()
            },
            context.spec_latest() matches Some((blk, moho)) ==> (r matches Ok(s) ==> {
                &&& s.spec_cur_block() == blk
                &&& s.spec_cur_moho() == moho
                &&& s.spec_context() == context
            }),
            context.spec_latest() is None ==> {
                &&& context.spec_anchor_state(genesis_block) is None ==> r is Err
                &&& r matches Ok(s) ==> Self::seeded(context, genesis_block, asm_predicate, seed, s)
            },
            context.spec_latest_read() matches Err(e) ==> r == Err::<Self, MohoWorkerError>(e),
            context.spec_latest_read() matches Ok(Some((blk, moho))) ==> (r matches Ok(s) && s.spec_cur_block()
                == blk && s.spec_cur_moho() == moho && s.spec_processed() == 0 && s.spec_context() == context),
            context.spec_latest_read() matches Ok(None) ==> Self::empty_store_launch(
                context,
                genesis_block,
                asm_predicate,
                seed,
                r,
            ),
    {
        let latest = context.get_latest_moho_state();
        Self::from_latest(context, latest, genesis_block, asm_predicate, seed, fold)
    }

    /// `s` is a worker seeded at genesis over `context` from the anchor state
    /// `anchor`: anchored at `genesis_block` with no fold yet, its Moho state
    /// is `seed` applied to `asm_predicate` and `anchor`, and that state was
    /// stored under `genesis_block` in `context`.
    pub open spec fn seeded_with<P, G>(
        context: W,
        genesis_block: L1BlockCommitment,
        asm_predicate: P,
        seed: G,
        anchor: W::AnchorState,
        s: Self,
    ) -> bool where G: FnOnce(P, &W::AnchorState) -> W::MohoState {
        &&& s.spec_cur_block() == genesis_block
        &&& s.spec_processed() == 0
        &&& s.spec_origin() == genesis_block.height
        &&& call_ensures(seed, (asm_predicate, &anchor), s.spec_cur_moho())
        &&& s.spec_context().spec_moho_states() == context.spec_moho_states().insert(
            genesis_block,
            s.spec_cur_moho(),
        )
        &&& s.spec_context().spec_latest() == latest_after_store(
            context.spec_latest(),
            genesis_block,
            s.spec_cur_moho(),
        )
    }

    /// `s` is a worker seeded at genesis over `context` from the anchor state
    /// `context` holds for `genesis_block` (see [`Self::seeded_with`]).
    pub open spec fn seeded<P, G>(
        context: W,
        genesis_block: L1BlockCommitment,
        asm_predicate: P,
        seed: G,
        s: Self,
    ) -> bool where G: FnOnce(P, &W::AnchorState) -> W::MohoState {
        context.spec_anchor_state(genesis_block) matches Some(anchor) && Self::seeded_with(
            context,
            genesis_block,
            asm_predicate,
            seed,
            anchor,
            s,
        )
    }

    /// What seeding genesis from the anchor state `anchor` gives: for the Moho
    /// state `seed` derives, the result succeeds exactly when storing it under
    /// `genesis_block` does, hands back the store's error otherwise, and on
    /// success the worker holds that state.
    pub open spec fn seed_result<P, G>(
        context: W,
        genesis_block: L1BlockCommitment,
        asm_predicate: P,
        seed: G,
        anchor: W::AnchorState,
        r: MohoWorkerResult<Self>,
    ) -> bool where G: FnOnce(P, &W::AnchorState) -> W::MohoState {
        exists|moho: W::MohoState|
            {
                &&& #[trigger] call_ensures(seed, (asm_predicate, &anchor), moho)
                &&& r is Ok <==> context.spec_store_result(genesis_block, moho) is Ok
                &&& context.spec_store_result(genesis_block, moho) matches Err(e) ==> r == Err::<Self, MohoWorkerError>(e)
                &&& r matches Ok(s) ==> s.spec_cur_moho() == moho
            }
    }

    /// `context` accepts storing under `genesis_block` whatever Moho state
    /// `seed` derives from `asm_predicate` and `anchor`.
    pub open spec fn store_accepts_seed<P, G>(
        context: W,
        genesis_block: L1BlockCommitment,
        asm_predicate: P,
        seed: G,
        anchor: W::AnchorState,
    ) -> bool where G: FnOnce(P, &W::AnchorState) -> W::MohoState {
        forall|moho: W::MohoState|
            #[trigger] call_ensures(seed, (asm_predicate, &anchor), moho) ==> context.spec_store_result(
                genesis_block,
                moho,
            ) is Ok
    }

    /// What launching over an empty store gives: the genesis anchor read's
    /// error is handed back; otherwise the seeding result (see
    /// [`Self::seed_result`]), which succeeds with a seeded worker whenever
    /// the store accepts the seeded state.
    pub open spec fn empty_store_launch<P, G>(
        context: W,
        genesis_block: L1BlockCommitment,
        asm_predicate: P,
        seed: G,
        r: MohoWorkerResult<Self>,
    ) -> bool where G: FnOnce(P, &W::AnchorState) -> W::MohoState {
        &&& context.spec_anchor_read(genesis_block) matches Err(e) ==> r == Err::<Self, MohoWorkerError>(e)
        &&& context.spec_anchor_read(genesis_block) matches Ok(anchor) ==> Self::seed_result(
            context,
            genesis_block,
            asm_predicate,
            seed,
            anchor,
            r,
        )
        &&& context.spec_anchor_read(genesis_block) matches Ok(anchor) ==> (Self::store_accepts_seed(
            context,
            genesis_block,
            asm_predicate,
            seed,
            anchor,
        ) ==> r is Ok)
    }

    /// The part of [`Self::new`] that follows reading the latest stored Moho
    /// state, given that read's result: a failed read is handed back; a
    /// latest entry is resumed; an empty store has the genesis anchor state
    /// read and seeded (see [`Self::seed_from_anchor`]).
    pub fn from_latest<P, G>(
        context: W,
        latest: MohoWorkerResult<Option<(L1BlockCommitment, W::MohoState)>>,
        genesis_block: L1BlockCommitment,
        asm_predicate: P,
        seed: G,
        fold: F,
    ) -> (r: MohoWorkerResult<Self>) where G: FnOnce(P, &W::AnchorState) -> W::MohoState
        requires
            forall|a: &W::AnchorState| seed.requires((asm_predicate, a)),
            forall|m: &W::MohoState, a: &W::AnchorState, l: &Vec<W::LogEntry>|
                #[trigger] fold.requires((m, a, l)),
        ensures
            r matches Ok(s) ==> {
                &&& s.spec_processed() == 0
                &&& s.spec_origin() == s.spec_cur_block().height
                &&& s.spec_fold() == fold
            },
            latest matches Err(e) ==> r == Err::<Self, MohoWorkerError>(e),
            latest == Ok::<Option<(L1BlockCommitment, W::MohoState)>, MohoWorkerError>(context.spec_latest())
                ==> (r matches Ok(s) ==> s.spec_persisted()),
            latest matches Ok(Some((blk, moho))) ==> (r matches Ok(s) && s.spec_cur_block() == blk
                && s.spec_cur_moho() == moho && s.spec_context() == context),
            latest matches Ok(None) ==> Self::empty_store_launch(context, genesis_block, asm_predicate, seed, r),
            latest matches Ok(None) ==> {
                &&& context.spec_anchor_state(genesis_block) is None ==> r == Err::<Self, MohoWorkerError>(
                    MohoWorkerError::MissingAsmState(genesis_block),
                )
                &&& r matches Ok(s) ==> Self::seeded(context, genesis_block, asm_predicate, seed, s)
            },
    {
        match latest {
            Err(e) => Err(e),
            Ok(Some((blk, moho))) => Ok(Self::resumed(context, blk, moho, fold)),
            Ok(None) => {
                let genesis_anchor = context.get_anchor_state(&genesis_block);
                Self::seed_from_anchor(context, genesis_block, genesis_anchor, asm_predicate, seed, fold)
            },
        }
    }

    /// A worker resumed at `block` with Moho state `moho`.
    fn resumed(context: W, block: L1BlockCommitment, moho: W::MohoState, fold: F) -> (s: Self)
        ensures
            s.spec_cur_block() == block,
            s.spec_cur_moho() == moho,
            s.spec_context() == context,
            s.spec_fold() == fold,
            s.spec_processed() == 0,
            s.spec_origin() == block.height,
    {
        let ghost m = moho;
        let s = MohoWorkerServiceState {
            context,
            core: FoldCore {
                fold,
                cur_moho: moho,
                tip: FoldTip { block, processed: 0 },
                origin: Ghost(block.height as int),
            },
        };
        assert(s.spec_cur_moho() == m);
        s
    }

    /// Seeds genesis given the result of reading the anchor state for
    /// `genesis_block`: a failed read is handed back and nothing is stored;
    /// otherwise the seeded Moho state is stored under `genesis_block` (see
    /// [`Self::finish_seed`]).
    pub fn seed_from_anchor<P, G>(
        context: W,
        genesis_block: L1BlockCommitment,
        genesis_anchor: MohoWorkerResult<W::AnchorState>,
        asm_predicate: P,
        seed: G,
        fold: F,
    ) -> (r: MohoWorkerResult<Self>) where G: FnOnce(P, &W::AnchorState) -> W::MohoState
        requires
            forall|a: &W::AnchorState| seed.requires((asm_predicate, a)),
        ensures
            genesis_anchor matches Err(e) ==> r == Err::<Self, MohoWorkerError>(e),
            genesis_anchor matches Ok(anchor) ==> Self::seed_result(
                context,
                genesis_block,
                asm_predicate,
                seed,
                anchor,
                r,
            ),
            genesis_anchor matches Ok(anchor) ==> (r matches Ok(s) ==> (Self::seeded_with(
                context,
                genesis_block,
                asm_predicate,
                seed,
                anchor,
                s,
            ) && s.spec_fold() == fold)),
    {
        match genesis_anchor {
            Err(e) => Err(e),
            Ok(anchor) => {
                let mut context = context;
                let moho = seed(asm_predicate, &anchor);
                let ghost stored_moho = moho;
                let stored = context.store_moho_state(&genesis_block, &moho);
                let r = Self::finish_seed(context, genesis_block, moho, stored, fold);
                assert(call_ensures(seed, (asm_predicate, &anchor), stored_moho));
                r
            },
        }
    }

    /// Finishes seeding genesis given the result of storing the seeded state
    /// `moho` under `genesis_block`: a failed store is handed back; otherwise
    /// the worker starts at `genesis_block` with `moho`.
    pub fn finish_seed(
        context: W,
        genesis_block: L1BlockCommitment,
        moho: W::MohoState,
        stored: MohoWorkerResult<()>,
        fold: F,
    ) -> (r: MohoWorkerResult<Self>)
        ensures
            stored matches Err(e) ==> r == Err::<Self, MohoWorkerError>(e),
            stored is Ok ==> (r matches Ok(s) && s.spec_cur_block() == genesis_block
                && s.spec_cur_moho() == moho && s.spec_context() == context && s.spec_fold() == fold
                && s.spec_processed() == 0 && s.spec_origin() == genesis_block.height),
    {
        match stored {
            Err(e) => Err(e),
            Ok(()) => Ok(Self::resumed(context, genesis_block, moho, fold)),
        }
    }

    /// Folds a single ASM commit into a new Moho state and persists it.
    ///
    /// The commit must be the immediate height-successor of the current block.
    /// A stale or duplicate commit (height at or below the current one) is
    /// ignored; a gap (height above the current one plus one) is rejected: the
    /// worker cannot chain across anchor states it never saw. For the next
    /// block, the anchor state and logs the context holds for it are folded
    /// into the current Moho state, and the result is stored under the block
    /// (see [`Self::fold_with_anchor`]). When a read or the store fails, the
    /// worker stays where it was.
    pub fn process(&mut self, block: L1BlockCommitment) -> (r: MohoWorkerResult<()>)
        requires
            forall|m: &W::MohoState, a: &W::AnchorState, l: &Vec<W::LogEntry>|
                #[trigger] old(self).spec_fold().requires((m, a, l)),
        ensures
            r is Ok ==> {
                &&& final(self).spec_cur_block().height == height_after(
                    old(self).spec_cur_block().height,
                    block.height,
                )
                &&& final(self).spec_processed() == old(self).spec_processed() + if commit_kind(
                    old(self).spec_cur_block().height,
                    block.height,
                ) is Next {
                    1int
                } else {
                    0int
                }
            },
            commit_kind(old(self).spec_cur_block().height, block.height) is Stale ==> {
                &&& r is Ok
                &&& *final(self) == *old(self)
            },
            commit_kind(old(self).spec_cur_block().height, block.height) is Gap ==> {
                &&& r == Err::<(), MohoWorkerError>(
                    MohoWorkerError::NonContiguousBlock {
                        expected: (old(self).spec_cur_block().height + 1) as u64,
                        got: block.height as u64,
                    },
                )
                &&& *final(self) == *old(self)
            },
            commit_kind(old(self).spec_cur_block().height, block.height) is Next ==> {
                &&& old(self).spec_context().spec_anchor_read(block) matches Err(e) ==> {
                    &&& r == Err::<(), MohoWorkerError>(e)
                    &&& *final(self) == *old(self)
                }
                &&& old(self).spec_context().spec_anchor_read(block) is Ok ==> (
                old(self).spec_context().spec_logs_read(block) matches Err(e) ==> {
                    &&& r == Err::<(), MohoWorkerError>(e)
                    &&& *final(self) == *old(self)
                })
                &&& old(self).spec_context().spec_anchor_read(block) matches Ok(anchor) ==> (
                old(self).spec_context().spec_logs_read(block) is Ok ==> Self::fold_result(
                    *old(self),
                    block,
                    anchor,
                    r,
                    *final(self),
                ))
                &&& old(self).spec_context().spec_anchor_read(block) matches Ok(anchor) ==> (
                old(self).spec_context().spec_logs_read(block) is Ok && Self::store_accepts_fold(
                    *old(self),
                    block,
                    anchor,
                ) ==> {
                    &&& r is Ok
                    &&& Self::folded(*old(self), block, *final(self))
                })
                &&& old(self).spec_context().spec_anchor_state(block) is None ==> {
                    &&& r == Err::<(), MohoWorkerError>(MohoWorkerError::MissingAsmState(block))
                    &&& *final(self) == *old(self)
                }
                &&& old(self).spec_context().spec_anchor_logs(block) is None ==> {
                    &&& r is Err
                    &&& *final(self) == *old(self)
                }
                &&& r is Err ==> Self::unmoved(*old(self), *final(self))
                &&& r is Ok ==> Self::folded(*old(self), block, *final(self))
            },
    {
        let cur_height = self.core.tip.block.height;
        let got = block.height;

        if got <= cur_height {
            return Ok(());
        }
        let expected = cur_height + 1;
        if got != expected {
            return Err(MohoWorkerError::NonContiguousBlock { expected: expected as u64, got: got as u64 });
        }

        let anchor_state = self.context.get_anchor_state(&block);
        self.fold_with_anchor(block, anchor_state)
    }

    /// Continues folding `block` given the result of reading its anchor state:
    /// a failed read is handed back with nothing changed; otherwise the
    /// block's logs are read and folded with `anchor` (see
    /// [`Self::fold_with_logs`]).
    pub fn fold_with_anchor(&mut self, block: L1BlockCommitment, anchor: MohoWorkerResult<W::AnchorState>) -> (r:
        MohoWorkerResult<()>)
        requires
            forall|m: &W::MohoState, a: &W::AnchorState, l: &Vec<W::LogEntry>|
                #[trigger] old(self).spec_fold().requires((m, a, l)),
            block.height == old(self).spec_cur_block().height + 1,
        ensures
            anchor matches Err(e) ==> (r == Err::<(), MohoWorkerError>(e) && *final(self) == *old(self)),
            anchor matches Ok(a) ==> {
                &&& old(self).spec_context().spec_logs_read(block) matches Err(e) ==> {
                    &&& r == Err::<(), MohoWorkerError>(e)
                    &&& *final(self) == *old(self)
                }
                &&& old(self).spec_context().spec_logs_read(block) is Ok ==> Self::fold_result(
                    *old(self),
                    block,
                    a,
                    r,
                    *final(self),
                )
                &&& old(self).spec_context().spec_anchor_logs(block) is None ==> {
                    &&& r == Err::<(), MohoWorkerError>(MohoWorkerError::MissingAsmState(block))
                    &&& *final(self) == *old(self)
                }
                &&& r is Err ==> Self::unmoved(*old(self), *final(self))
                &&& r is Ok ==> Self::folded_with(*old(self), block, a, *final(self))
            },
    {
        match anchor {
            Err(e) => Err(e),
            Ok(anchor) => {
                let logs = self.context.get_anchor_logs(&block);
                self.fold_with_logs(block, anchor, logs)
            },
        }
    }

    /// Continues folding `block` given its anchor state and the result of
    /// reading its logs: a failed read is handed back with nothing changed;
    /// otherwise the transition derives the next Moho state from the current
    /// one, `anchor` and the logs, which is stored under `block` and adopted
    /// (see [`Self::commit_fold`]).
    pub fn fold_with_logs(
        &mut self,
        block: L1BlockCommitment,
        anchor: W::AnchorState,
        logs: MohoWorkerResult<Vec<W::LogEntry>>,
    ) -> (r: MohoWorkerResult<()>)
        requires
            forall|m: &W::MohoState, a: &W::AnchorState, l: &Vec<W::LogEntry>|
                #[trigger] old(self).spec_fold().requires((m, a, l)),
            block.height == old(self).spec_cur_block().height + 1,
        ensures
            logs matches Err(e) ==> (r == Err::<(), MohoWorkerError>(e) && *final(self) == *old(self)),
            logs matches Ok(l) ==> exists|moho: W::MohoState|
                {
                    &&& #[trigger] call_ensures(old(self).spec_fold(), (&old(self).spec_cur_moho(), &anchor, &l), moho)
                    &&& r == old(self).spec_context().spec_store_result(block, moho)
                    &&& r is Ok ==> final(self).spec_cur_moho() == moho
                },
            logs matches Ok(l) ==> {
                &&& r is Err ==> Self::unmoved(*old(self), *final(self))
                &&& r is Ok ==> {
                    &&& Self::advanced(*old(self), block, *final(self))
                    &&& call_ensures(
                        old(self).spec_fold(),
                        (&old(self).spec_cur_moho(), &anchor, &l),
                        final(self).spec_cur_moho(),
                    )
                    &&& Self::stored_next(*old(self), block, *final(self))
                }
            },
    {
        match logs {
            Err(e) => Err(e),
            Ok(logs) => {
                assert(self.core.fold == old(self).spec_fold());
                assert(self.core.fold.requires((&self.core.cur_moho, &anchor, &logs)));
                let moho = (self.core.fold)(&self.core.cur_moho, &anchor, &logs);
                let ghost m = moho;
                let stored = self.context.store_moho_state(&block, &moho);
                let r = self.commit_fold(block, moho, stored);
                assert(call_ensures(old(self).spec_fold(), (&old(self).spec_cur_moho(), &anchor, &logs), m));
                assert(r == old(self).spec_context().spec_store_result(block, m));
                r
            },
        }
    }

    /// Finishes folding `block` given the Moho state `moho` derived for it and
    /// the result of storing it: a failed store is handed back and the fold
    /// stays where it was; otherwise the worker adopts `moho` at `block`.
    pub fn commit_fold(&mut self, block: L1BlockCommitment, moho: W::MohoState, stored: MohoWorkerResult<()>) -> (r:
        MohoWorkerResult<()>)
        requires
            block.height == old(self).spec_cur_block().height + 1,
        ensures
            r == stored,
            stored matches Err(e) ==> (r == Err::<(), MohoWorkerError>(e) && *final(self) == *old(self)),
            stored is Ok ==> {
                &&& r is Ok
                &&& Self::advanced(*old(self), block, *final(self))
                &&& final(self).spec_cur_moho() == moho
                &&& final(self).spec_context() == old(self).spec_context()
            },
    {
        proof {
            use_type_invariant(&self.core);
        }
        if stored.is_err() {
            return stored;
        }
        let ghost next_moho = moho;
        self.core.cur_moho = moho;
        self.core.tip = FoldTip { block, processed: self.core.tip.processed + 1 };
        assert(self.spec_cur_moho() == next_moho);
        stored
    }

    /// What folding `block` into `prev` with the anchor state `anchor` gives,
    /// when the logs read succeeds: for the logs `prev`'s context holds and
    /// the Moho state the transition derives from them, the result is what
    /// storing that state under `block` gives, and on success the worker
    /// holds that state.
    pub open spec fn fold_result(
        prev: Self,
        block: L1BlockCommitment,
        anchor: W::AnchorState,
        r: MohoWorkerResult<()>,
        next: Self,
    ) -> bool {
        exists|logs: Vec<W::LogEntry>, moho: W::MohoState|
            {
                &&& prev.spec_context().spec_anchor_logs(block) == Some(logs@)
                &&& #[trigger] call_ensures(prev.spec_fold(), (&prev.spec_cur_moho(), &anchor, &logs), moho)
                &&& r == prev.spec_context().spec_store_result(block, moho)
                &&& r is Ok ==> next.spec_cur_moho() == moho
            }
    }

    /// `prev`'s context accepts storing under `block` whatever Moho state the
    /// transition derives from `prev`'s Moho state, `anchor` and the logs the
    /// context holds for `block`.
    pub open spec fn store_accepts_fold(prev: Self, block: L1BlockCommitment, anchor: W::AnchorState) -> bool {
        forall|logs: Vec<W::LogEntry>, moho: W::MohoState|
            prev.spec_context().spec_anchor_logs(block) == Some(logs@) && #[trigger] call_ensures(
                prev.spec_fold(),
                (&prev.spec_cur_moho(), &anchor, &logs),
                moho,
            ) ==> prev.spec_context().spec_store_result(block, moho) is Ok
    }

    /// `next` has the fold of `prev`: same block, Moho state, count, origin
    /// and transition (its context may differ after a failed store).
    pub open spec fn unmoved(prev: Self, next: Self) -> bool {
        &&& next.spec_cur_block() == prev.spec_cur_block()
        &&& next.spec_cur_moho() == prev.spec_cur_moho()
        &&& next.spec_processed() == prev.spec_processed()
        &&& next.spec_origin() == prev.spec_origin()
        &&& next.spec_fold() == prev.spec_fold()
    }

    /// `next` is `prev` moved to `block`, one fold later, with the same
    /// origin and transition.
    pub open spec fn advanced(prev: Self, block: L1BlockCommitment, next: Self) -> bool {
        &&& next.spec_cur_block() == block
        &&& next.spec_processed() == prev.spec_processed() + 1
        &&& next.spec_origin() == prev.spec_origin()
        &&& next.spec_fold() == prev.spec_fold()
    }

    /// `next`'s Moho state is stored under `block` in its context, which is
    /// `prev`'s context after that store, and the store's latest entry was
    /// updated; a worker that was persisted stays persisted.
    pub open spec fn stored_next(prev: Self, block: L1BlockCommitment, next: Self) -> bool {
        &&& next.spec_context().spec_moho_states() == prev.spec_context().spec_moho_states().insert(
            block,
            next.spec_cur_moho(),
        )
        &&& next.spec_context().spec_latest() == latest_after_store(
            prev.spec_context().spec_latest(),
            block,
            next.spec_cur_moho(),
        )
        &&& prev.spec_persisted() ==> next.spec_persisted()
    }

    /// `next` is `prev` after folding `block` with the anchor state `anchor`:
    /// one fold later at `block`, with the Moho state the transition derives
    /// from `prev`'s Moho state, `anchor` and the logs `prev`'s context holds
    /// for `block`, that state stored under `block`.
    pub open spec fn folded_with(prev: Self, block: L1BlockCommitment, anchor: W::AnchorState, next: Self) -> bool {
        &&& Self::advanced(prev, block, next)
        &&& exists|logs: Vec<W::LogEntry>|
            {
                &&& prev.spec_context().spec_anchor_logs(block) == Some(logs@)
                &&& #[trigger] call_ensures(prev.spec_fold(), (&prev.spec_cur_moho(), &anchor, &logs), next.spec_cur_moho())
            }
        &&& Self::stored_next(prev, block, next)
    }

    /// `next` is `prev` after folding `block` with the anchor state and logs
    /// `prev`'s context holds for it (see [`Self::folded_with`]).
    pub open spec fn folded(prev: Self, block: L1BlockCommitment, next: Self) -> bool {
        prev.spec_context().spec_anchor_state(block) matches Some(anchor) && Self::folded_with(
            prev,
            block,
            anchor,
            next,
        )
    }
}

} // verus!
